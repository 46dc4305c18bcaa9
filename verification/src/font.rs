use vstd::prelude::*;

verus! {

/// The identifier of a loaded font.
pub type FontId = usize;

/// The weight of a font, from thin to black.
#[derive(Clone, Copy, Debug, PartialEq, Eq, Structural, Hash)]
pub enum FontWeight {
    Thin,
    ExtraLight,
    Light,
    Normal,
    Medium,
    SemiBold,
    Bold,
    ExtraBold,
    Black,
}

/// The slant of a font.
#[derive(Clone, Copy, Debug, PartialEq, Eq, Structural, Hash)]
pub enum FontStyle {
    Normal,
    Italic,
}

impl FontWeight {
    /// The numeric weight, in the usual hundreds from 100 to 900.
    pub open spec fn spec_weight(self) -> u32 {
        match self {
            FontWeight::Thin => 100,
            FontWeight::ExtraLight => 200,
            FontWeight::Light => 300,
            FontWeight::Normal => 400,
            FontWeight::Medium => 500,
            FontWeight::SemiBold => 600,
            FontWeight::Bold => 700,
            FontWeight::ExtraBold => 800,
            FontWeight::Black => 900,
        }
    }

    pub fn weight(&self) -> (w: u32)
        ensures
            w == self.spec_weight(),
            100 <= w <= 900,
    {
        match self {
            FontWeight::Thin => 100,
            FontWeight::ExtraLight => 200,
            FontWeight::Light => 300,
            FontWeight::Normal => 400,
            FontWeight::Medium => 500,
            FontWeight::SemiBold => 600,
            FontWeight::Bold => 700,
            FontWeight::ExtraBold => 800,
            FontWeight::Black => 900,
        }
    }
}

/// A font file of a family, with the weight and style it is taken to have.
#[derive(Clone, Debug)]
pub struct FontDescriptor {
    pub path: String,
    pub font_id: FontId,
    pub weight_hint: FontWeight,
    pub style_hint: FontStyle,
    pub is_bitmap: bool,
}

/// Font families should only contain the same sets of glyphs.
#[derive(Clone, Debug)]
pub struct FontFamily {
    pub name: String,
    pub fonts: Vec<FontDescriptor>,
}

/// The descriptor that adding the font at `path` makes: font id 0, the given
/// hints, bitmap or not.
pub open spec fn descriptor(
    path: Seq<char>,
    weight_hint: FontWeight,
    style_hint: FontStyle,
    is_bitmap: bool,
) -> (FontId, FontWeight, FontStyle, bool, Seq<char>) {
    (0, weight_hint, style_hint, is_bitmap, path)
}

/// A descriptor as plain values: id, weight, style, bitmap, path.
pub open spec fn plain(d: FontDescriptor) -> (FontId, FontWeight, FontStyle, bool, Seq<char>) {
    (d.font_id, d.weight_hint, d.style_hint, d.is_bitmap, d.path@)
}

/// How well `font` fits the wanted weight and style: 1000 for the same style
/// (both normal or both italic), plus 900 less the distance between the
/// weights.
pub open spec fn fit_score(font: FontDescriptor, weight_hint: FontWeight, style_hint: FontStyle) -> int {
    (if font.style_hint == style_hint {
        1000int
    } else {
        0int
    }) + 900 - (if font.weight_hint.spec_weight() >= weight_hint.spec_weight() {
        font.weight_hint.spec_weight() - weight_hint.spec_weight()
    } else {
        weight_hint.spec_weight() - font.weight_hint.spec_weight()
    })
}

/// `i` is the first of the fonts with the highest score.
pub open spec fn first_best(
    fonts: Seq<FontDescriptor>,
    i: int,
    weight_hint: FontWeight,
    style_hint: FontStyle,
) -> bool {
    &&& 0 <= i < fonts.len()
    &&& forall|j: int|
        0 <= j < fonts.len() ==> #[trigger] fit_score(fonts[j], weight_hint, style_hint) <= fit_score(
            fonts[i],
            weight_hint,
            style_hint,
        )
    &&& forall|j: int|
        0 <= j < i ==> #[trigger] fit_score(fonts[j], weight_hint, style_hint) < fit_score(
            fonts[i],
            weight_hint,
            style_hint,
        )
}

impl FontFamily {
    pub open spec fn plain_fonts(&self) -> Seq<(FontId, FontWeight, FontStyle, bool, Seq<char>)> {
        self.fonts@.map_values(|d: FontDescriptor| plain(d))
    }

    /// An empty family called `name`.
    pub fn new(name: &str) -> (f: FontFamily)
        ensures
            f.name@ == name@,
            f.fonts@.len() == 0,
    {
        FontFamily { name: name.to_owned(), fonts: Vec::new() }
    }

    /// A family called `name` with a normal, non-bitmap font for each path, in
    /// order.
    pub fn new_from_paths(name: &str, paths: Vec<&str>) -> (f: FontFamily)
        ensures
            f.name@ == name@,
            f.plain_fonts() == paths@.map_values(
                |p: &str| descriptor(p@, FontWeight::Normal, FontStyle::Normal, false),
            ),
    {
        let mut family = FontFamily { name: name.to_owned(), fonts: Vec::new() };
        let mut i: usize = 0;
        while i < paths.len()
            invariant
                i <= paths@.len(),
                family.name@ == name@,
                family.plain_fonts() == paths@.take(i as int).map_values(
                    |p: &str| descriptor(p@, FontWeight::Normal, FontStyle::Normal, false),
                ),
            decreases paths@.len() - i,
        {
            family.add_font(paths[i]);
            assert(paths@.take(i + 1) == paths@.take(i as int).push(paths@[i as int]));
            i = i + 1;
        }
        assert(paths@.take(paths@.len() as int) == paths@);
        family
    }

    /// Adds a normal, non-bitmap font of normal weight and style.
    pub fn add_font(&mut self, path: &str)
        ensures
            final(self).name == old(self).name,
            final(self).plain_fonts() == old(self).plain_fonts().push(
                descriptor(path@, FontWeight::Normal, FontStyle::Normal, false),
            ),
    {
        self.add_font_with_hints(path, FontWeight::Normal, FontStyle::Normal)
    }

    /// Adds a bitmap font of normal weight and style.
    pub fn add_bitmap_font(&mut self, path: &str)
        ensures
            final(self).name == old(self).name,
            final(self).plain_fonts() == old(self).plain_fonts().push(
                descriptor(path@, FontWeight::Normal, FontStyle::Normal, true),
            ),
    {
        self.add_bitmap_font_with_hints(path, FontWeight::Normal, FontStyle::Normal)
    }

    /// This will add a normal font to the font family. The hints are overridden
    /// by the hints within the font if these are present.
    pub fn add_font_with_hints(&mut self, path: &str, weight_hint: FontWeight, style_hint: FontStyle)
        ensures
            final(self).name == old(self).name,
            final(self).plain_fonts() == old(self).plain_fonts().push(
                descriptor(path@, weight_hint, style_hint, false),
            ),
    {
        self.fonts.push(
            FontDescriptor {
                path: path.to_owned(),
                font_id: 0,
                weight_hint,
                style_hint,
                is_bitmap: false,
            },
        );
        assert(self.plain_fonts() =~= old(self).plain_fonts().push(
            descriptor(path@, weight_hint, style_hint, false),
        ));
    }

    /// This will add a bitmap font to the font family. The hints are overridden
    /// by the hints within the font if these are present.
    pub fn add_bitmap_font_with_hints(
        &mut self,
        path: &str,
        weight_hint: FontWeight,
        style_hint: FontStyle,
    )
        ensures
            final(self).name == old(self).name,
            final(self).plain_fonts() == old(self).plain_fonts().push(
                descriptor(path@, weight_hint, style_hint, true),
            ),
    {
        self.fonts.push(
            FontDescriptor {
                path: path.to_owned(),
                font_id: 0,
                weight_hint,
                style_hint,
                is_bitmap: true,
            },
        );
        assert(self.plain_fonts() =~= old(self).plain_fonts().push(
            descriptor(path@, weight_hint, style_hint, true),
        ));
    }

    /// The id of the font that best fits the wanted weight and style: the first
    /// of the fonts with the highest [`fit_score`]; 0 for a family without
    /// fonts.
    pub fn get_best_fit(&self, weight_hint: FontWeight, style_hint: FontStyle) -> (r: FontId)
        ensures
            self.fonts@.len() == 0 ==> r == 0,
            self.fonts@.len() > 0 ==> exists|i: int|
                first_best(self.fonts@, i, weight_hint, style_hint) && r == self.fonts@[i].font_id,
    {
        let mut best_fit: FontId = 0;
        let mut best_score: u32 = 0;
        let ghost mut best_index: int = -1;
        let target_weight = weight_hint.weight();
        let mut i: usize = 0;
        while i < self.fonts.len()
            invariant
                i <= self.fonts@.len(),
                target_weight == weight_hint.spec_weight(),
                i == 0 ==> best_score == 0 && best_fit == 0,
                i > 0 ==> first_best(self.fonts@.take(i as int), best_index, weight_hint, style_hint),
                i > 0 ==> best_score == fit_score(self.fonts@[best_index], weight_hint, style_hint),
                i > 0 ==> best_fit == self.fonts@[best_index].font_id,
            decreases self.fonts@.len() - i,
        {
            let font = &self.fonts[i];
            let mut font_score: u32 = 0;
            match (font.style_hint, style_hint) {
                (FontStyle::Italic, FontStyle::Italic) => {
                    font_score = font_score + 1000;
                },
                (FontStyle::Normal, FontStyle::Normal) => {
                    font_score = font_score + 1000;
                },
                (_, _) => {},
            }
            let font_weight = font.weight_hint.weight();
            let diff = if font_weight >= target_weight {
                font_weight - target_weight
            } else {
                target_weight - font_weight
            };
            font_score = font_score + 900 - diff;
            assert(font_score == fit_score(self.fonts@[i as int], weight_hint, style_hint));
            let ghost prefix = self.fonts@.take(i as int);
            let ghost next = self.fonts@.take(i + 1);
            assert(forall|j: int| 0 <= j < i ==> next[j] == prefix[j]);
            assert(next[i as int] == self.fonts@[i as int]);
            if font_score > best_score {
                best_score = font_score;
                best_fit = font.font_id;
                proof {
                    best_index = i as int;
                }
            }
            i = i + 1;
        }
        assert(self.fonts@.take(self.fonts@.len() as int) == self.fonts@);
        best_fit
    }
}

} // verus!
