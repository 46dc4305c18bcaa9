use carbide::color::{Color, EnvironmentColor, StateKey};
use carbide::context::{Context, ContextAction, PathStep};
use carbide::environment_color_state::EnvironmentColorState;
use carbide::filter::{ImageFilter, ImageFilterValue};
use carbide::font::{FontFamily, FontStyle, FontWeight};
use carbide::position::{Dimension, Position};
use carbide::primitives::{root_position, CPrimitives, Widget};
use carbide::scalar::{Scalar, Scalar32};
use carbide::stack::{count_spaces, sizing_order};

fn w(v: f32) -> Scalar32 {
    Scalar32::from_bits(v.to_bits())
}

fn taps(f: &ImageFilter) -> Vec<(i32, i32, f32)> {
    f.filter.iter().map(|v| (v.offset_x, v.offset_y, f32::from_bits(v.weight.to_bits()))).collect()
}

#[test]
fn font_family_from_paths() {
    let family = FontFamily::new_from_paths("NotoSans", vec!["a.ttf", "b.ttf"]);
    assert_eq!(family.name, "NotoSans");
    assert_eq!(family.fonts.len(), 2);
    assert_eq!(family.fonts[1].path, "b.ttf");
    assert_eq!(family.fonts[0].weight_hint, FontWeight::Normal);
    assert_eq!(family.fonts[0].style_hint, FontStyle::Normal);
    assert!(!family.fonts[0].is_bitmap);
    assert_eq!(family.fonts[0].font_id, 0);
}

#[test]
fn bitmap_fonts_are_marked() {
    let mut family = FontFamily::new("Emoji");
    family.add_bitmap_font_with_hints("e.ttc", FontWeight::Bold, FontStyle::Italic);
    family.add_bitmap_font("f.ttc");
    assert!(family.fonts[0].is_bitmap);
    assert_eq!(family.fonts[0].weight_hint, FontWeight::Bold);
    assert_eq!(family.fonts[0].style_hint, FontStyle::Italic);
    assert!(family.fonts[1].is_bitmap);
}

#[test]
fn best_fit_prefers_style_then_weight() {
    let mut family = FontFamily::new("F");
    family.add_font_with_hints("regular", FontWeight::Normal, FontStyle::Normal);
    family.add_font_with_hints("italic", FontWeight::Normal, FontStyle::Italic);
    family.add_font_with_hints("bold", FontWeight::Bold, FontStyle::Normal);
    for (i, font) in family.fonts.iter_mut().enumerate() {
        font.font_id = i + 10;
    }
    assert_eq!(family.get_best_fit(FontWeight::Normal, FontStyle::Normal), 10);
    assert_eq!(family.get_best_fit(FontWeight::Thin, FontStyle::Italic), 11);
    assert_eq!(family.get_best_fit(FontWeight::Black, FontStyle::Normal), 12);
    assert_eq!(family.get_best_fit(FontWeight::Medium, FontStyle::Normal), 10);
    assert_eq!(FontFamily::new("empty").get_best_fit(FontWeight::Bold, FontStyle::Normal), 0);
}

#[test]
fn font_weights() {
    assert_eq!(FontWeight::Thin.weight(), 100);
    assert_eq!(FontWeight::Normal.weight(), 400);
    assert_eq!(FontWeight::Black.weight(), 900);
}

#[test]
fn filters_hold_their_taps() {
    assert_eq!(taps(&ImageFilter::sharpen()), vec![(-1, 0, -1.0), (1, 0, -1.0), (0, -1, -1.0), (0, 1, -1.0), (0, 0, 5.0)]);
    assert_eq!(taps(&ImageFilter::sobel_x()), vec![(-1, -1, 1.0), (-1, 0, 2.0), (-1, 1, 1.0), (1, -1, -1.0), (1, 0, -2.0), (1, 1, -1.0)]);
    let sobel = taps(&ImageFilter::sobel());
    assert_eq!(sobel.len(), 12);
    assert_eq!(sobel[6..].to_vec(), taps(&ImageFilter::sobel_y()));
    let prewit = taps(&ImageFilter::prewit());
    assert_eq!(prewit[..6].to_vec(), taps(&ImageFilter::prewit_x()));
    assert_eq!(prewit[6..].to_vec(), taps(&ImageFilter::prewit_y()));
}

#[test]
fn flipping_exchanges_offsets() {
    assert_eq!(taps(&ImageFilter::sobel_x().flipped()), taps(&ImageFilter::sobel_y()));
    assert_eq!(taps(&ImageFilter::prewit_x().flipped()), taps(&ImageFilter::prewit_y()));
    let mut f = ImageFilter { filter: vec![ImageFilterValue::new(3, -1, w(0.5))] };
    f.flip();
    assert_eq!(taps(&f), vec![(-1, 3, 0.5)]);
    f.flip();
    assert_eq!(taps(&f), vec![(3, -1, 0.5)]);
}

#[test]
fn radii() {
    let f = ImageFilter { filter: vec![ImageFilterValue::new(-3, 1, w(1.0)), ImageFilterValue::new(2, -5, w(1.0))] };
    assert_eq!(f.radius_x(), 3);
    assert_eq!(f.radius_y(), 5);
    assert_eq!(ImageFilter::sharpen().radius_x(), 1);
    assert_eq!(ImageFilter { filter: vec![] }.radius_y(), 0);
}

#[test]
fn context_drawing_calls_record_nothing() {
    let point = [Scalar::from_bits(0), Scalar::from_bits(0)];
    let mut c = Context { generator: vec![ContextAction::MoveTo(point), ContextAction::Fill] };
    c.set_line_width();
    c.begin_path();
    c.move_to();
    c.line_to();
    c.arc();
    c.fill();
    c.stroke();
    assert_eq!(c.generator.len(), 2);
}

#[test]
fn primitives_come_out_in_order() {
    let mut p = CPrimitives { primitives: vec![1, 2, 3] };
    assert_eq!(p.next_primitive(), Some(1));
    assert_eq!(p.next_primitive(), Some(2));
    assert_eq!(p.next_primitive(), Some(3));
    assert_eq!(p.next_primitive(), None);
}

#[test]
fn stack_spacing() {
    assert_eq!(count_spaces(&vec![true, true, false, true, true, true]), 3);
    assert_eq!(count_spaces(&vec![true]), 0);
    assert_eq!(count_spaces(&vec![]), 0);
}

#[test]
fn sizing_order_is_stable_by_flexibility() {
    assert_eq!(sizing_order(&vec![0, 2, 1, 2, 0]), vec![1, 3, 2, 0, 4]);
    assert_eq!(sizing_order(&vec![]), Vec::<usize>::new());
}

#[test]
fn environment_color_state() {
    let mut state = EnvironmentColorState::new(EnvironmentColor::Label);
    assert_eq!(state.key(), StateKey::Color(EnvironmentColor::Label));
    match state.value() {
        Color::Rgba(r, g, b, a) => assert_eq!((f32::from_bits(r.bits), f32::from_bits(g.bits), f32::from_bits(b.bits), f32::from_bits(a.bits)), (0.0, 0.0, 0.0, 1.0)),
        _ => panic!("expected rgba"),
    }
    state.capture_state(None);
    assert!(matches!(state.value(), Color::Rgba(..)));
    state.capture_state(Some(Color::Hsla(w(0.1), w(0.2), w(0.3), w(1.0))));
    assert!(matches!(state.value(), Color::Hsla(..)));
    state.set_value(Color::Rgba(w(1.0), w(1.0), w(1.0), w(1.0)));
    assert!(matches!(state.value(), Color::Rgba(..)));
    *state.value_mut() = Color::Hsla(w(0.5), w(0.5), w(0.5), w(0.5));
    match state.value() {
        Color::Hsla(h, _, _, _) => assert_eq!(f32::from_bits(h.bits), 0.5),
        _ => panic!("expected hsla"),
    }
    assert_eq!(state.key(), StateKey::Color(EnvironmentColor::Label));
}

fn d(v: f64) -> Scalar {
    Scalar::from_bits(v.to_bits())
}

fn pt(p: [Scalar32; 2]) -> (f32, f32) {
    (f32::from_bits(p[0].to_bits()), f32::from_bits(p[1].to_bits()))
}

fn describe(step: &PathStep) -> String {
    match step {
        PathStep::Begin(p) => format!("begin {:?}", pt(*p)),
        PathStep::LineTo(p) => format!("line {:?}", pt(*p)),
        PathStep::QuadraticBezierTo(c, t) => format!("quad {:?} {:?}", pt(*c), pt(*t)),
        PathStep::CubicBezierTo(a, b, t) => format!("cubic {:?} {:?} {:?}", pt(*a), pt(*b), pt(*t)),
        PathStep::End(closed) => format!("end {}", closed),
        PathStep::Close => "close".to_string(),
    }
}

fn describe_all(paths: &[Vec<PathStep>]) -> Vec<Vec<String>> {
    paths.iter().map(|p| p.iter().map(describe).collect()).collect()
}

#[test]
fn paths_are_split_at_moves_and_strokes_and_offset() {
    let c = Context {
        generator: vec![
            ContextAction::MoveTo([d(1.0), d(2.0)]),
            ContextAction::LineTo([d(3.0), d(4.0)]),
            ContextAction::Stroke,
            ContextAction::LineTo([d(5.0), d(6.0)]),
            ContextAction::Close,
        ],
    };
    let paths = c.to_paths([d(10.0), d(20.0)]);
    assert_eq!(
        describe_all(&paths),
        vec![
            vec!["begin (11.0, 22.0)", "line (13.0, 24.0)", "end false"],
            vec!["line (15.0, 26.0)", "close", "end false"],
        ]
    );
}

#[test]
fn paths_begin_at_the_origin_when_no_move_came_first() {
    let quad = Context {
        generator: vec![ContextAction::QuadraticBezierTo { ctrl: [d(1.0), d(1.0)], to: [d(2.0), d(0.5)] }],
    };
    assert_eq!(
        describe_all(&quad.to_paths([d(1.0), d(1.0)])),
        vec![vec!["begin (1.0, 1.0)", "quad (2.0, 2.0) (3.0, 1.5)", "end false"]]
    );
    let cubic = Context {
        generator: vec![
            ContextAction::CubicBezierTo { ctrl1: [d(1.0), d(0.0)], ctrl2: [d(0.0), d(1.0)], to: [d(1.0), d(1.0)] },
            ContextAction::Fill,
        ],
    };
    assert_eq!(
        describe_all(&cubic.to_paths([d(1.0), d(2.0)])),
        vec![
            vec!["begin (0.0, 0.0)", "cubic (2.0, 2.0) (1.0, 3.0) (2.0, 3.0)"],
            vec!["end false"],
        ]
    );
    let moves = Context {
        generator: vec![ContextAction::MoveTo([d(1.0), d(1.0)]), ContextAction::MoveTo([d(0.1), d(0.0)])],
    };
    assert_eq!(
        describe_all(&moves.to_paths([d(0.2), d(0.0)])),
        vec![vec!["begin (1.2, 1.0)"], vec!["begin (0.3, 0.0)", "end false"]]
    );
}

#[test]
fn no_paths_without_steps() {
    let empty = Context { generator: vec![ContextAction::Fill, ContextAction::Stroke, ContextAction::Close] };
    assert!(empty.to_paths([d(1.0), d(1.0)]).is_empty());
}

#[test]
fn normalize_divides_by_the_weight_sum() {
    let mut f = ImageFilter {
        filter: vec![
            ImageFilterValue { offset_x: -1, offset_y: 0, weight: w(1.0) },
            ImageFilterValue { offset_x: 0, offset_y: 0, weight: w(2.0) },
            ImageFilterValue { offset_x: 1, offset_y: 0, weight: w(1.0) },
        ],
    };
    f.normalize();
    assert_eq!(taps(&f), vec![(-1, 0, 0.25), (0, 0, 0.5), (1, 0, 0.25)]);
    let mut sharpen = ImageFilter::sharpen();
    let before = taps(&sharpen);
    sharpen.normalize();
    assert_eq!(taps(&sharpen), before);
    let mut thirds = ImageFilter {
        filter: vec![
            ImageFilterValue { offset_x: 0, offset_y: 0, weight: w(0.1) },
            ImageFilterValue { offset_x: 0, offset_y: 1, weight: w(0.2) },
        ],
    };
    thirds.normalize();
    let sum = 0.1f32 + 0.2f32;
    assert_eq!(taps(&thirds), vec![(0, 0, 0.1f32 / sum), (0, 1, 0.2f32 / sum)]);
}

#[test]
fn normalize_of_a_zero_sum_filter_is_not_finite() {
    let mut f = ImageFilter::sobel_x();
    f.normalize();
    assert!(taps(&f).iter().all(|t| !t.2.is_finite()));
}

#[test]
fn root_is_centred_in_the_window() {
    let p: Position = root_position(
        Dimension::new(d(800.0), d(600.0)),
        Dimension::new(d(100.0), d(50.0)),
    );
    assert_eq!((f64::from_bits(p.x.to_bits()), f64::from_bits(p.y.to_bits())), (350.0, 275.0));
    let big = root_position(Dimension::new(d(10.0), d(10.0)), Dimension::new(d(30.0), d(11.0)));
    assert_eq!((f64::from_bits(big.x.to_bits()), f64::from_bits(big.y.to_bits())), (-10.0, -0.5));
}

fn kinds(paths: &[Vec<PathStep>]) -> Vec<Vec<String>> {
    describe_all(paths).into_iter().map(|p| p.into_iter().map(|s| s.split(' ').next().unwrap().to_string()).collect()).collect()
}

#[test]
fn offset_moves_only_points() {
    let c = Context {
        generator: vec![
            ContextAction::LineTo([d(1.0), d(1.0)]),
            ContextAction::Close,
            ContextAction::MoveTo([d(2.0), d(2.0)]),
            ContextAction::CubicBezierTo { ctrl1: [d(0.0), d(1.0)], ctrl2: [d(1.0), d(0.0)], to: [d(3.0), d(3.0)] },
            ContextAction::Fill,
            ContextAction::Stroke,
        ],
    };
    let near = c.to_paths([d(0.0), d(0.0)]);
    let far = c.to_paths([d(5.0), d(-7.5)]);
    assert_eq!(kinds(&near), kinds(&far));
    assert_eq!(
        kinds(&near),
        vec![vec!["begin", "line", "close"], vec!["begin", "cubic"], vec!["end"], vec!["end"]]
    );
    assert_ne!(describe_all(&near), describe_all(&far));
}

struct Panel {
    position: Position,
    dimension: Dimension,
    requested: Dimension,
    calls: Vec<String>,
}

impl Widget<String, u32> for Panel {
    fn spec_position(&self) -> Position {
        self.position
    }

    fn spec_dimension(&self) -> Dimension {
        self.dimension
    }

    fn spec_requested(&self) -> Dimension {
        self.requested
    }

    fn spec_drawn(&self) -> Vec<String> {
        vec![format!("panel at {}", f64::from_bits(self.position.x.to_bits()))]
    }

    fn width(&self) -> Scalar {
        self.dimension.width
    }

    fn height(&self) -> Scalar {
        self.dimension.height
    }

    fn set_x(&mut self, x: Scalar) {
        self.calls.push("set_x".to_string());
        self.position.x = x;
    }

    fn set_y(&mut self, y: Scalar) {
        self.calls.push("set_y".to_string());
        self.position.y = y;
    }

    fn calculate_size(&mut self, requested_size: Dimension, env: &mut u32) -> Dimension {
        *env += 1;
        self.calls.push(format!("size {}", f64::from_bits(requested_size.width.to_bits())));
        self.requested = requested_size;
        self.dimension = Dimension::new(d(100.0), d(50.0));
        self.dimension
    }

    fn position_children(&mut self) {
        self.calls.push("children".to_string());
    }

    fn process_get_primitives(&mut self, primitives: &mut Vec<String>, env: &mut u32) {
        *env += 1;
        self.calls.push("draw".to_string());
        primitives.extend(self.spec_drawn());
    }
}

#[test]
fn frame_sizes_centres_places_and_draws_the_root() {
    let mut root = Panel {
        position: Position::new(d(0.0), d(0.0)),
        dimension: Dimension::new(d(0.0), d(0.0)),
        requested: Dimension::new(d(0.0), d(0.0)),
        calls: vec![],
    };
    let mut env = 0u32;
    let mut frame = CPrimitives::new(Dimension::new(d(800.0), d(600.0)), &mut root, &mut env);
    assert_eq!(root.calls, vec!["size 800", "set_x", "set_y", "children", "draw"]);
    assert_eq!(env, 2);
    assert_eq!(
        (f64::from_bits(root.position.x.to_bits()), f64::from_bits(root.position.y.to_bits())),
        (350.0, 275.0)
    );
    assert_eq!(f64::from_bits(root.requested.height.to_bits()), 600.0);
    assert_eq!(frame.next_primitive(), Some("panel at 350".to_string()));
    assert_eq!(frame.next_primitive(), None);
}
