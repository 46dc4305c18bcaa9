use vstd::prelude::*;

use crate::scalar::{binary32_add, binary32_div, Scalar32};

verus! {

/// Encoding of the binary32 number 1.0.
pub const WEIGHT_ONE: u32 = 0x3F80_0000u32;

/// Encoding of the binary32 number -1.0.
pub const WEIGHT_MINUS_ONE: u32 = 0xBF80_0000u32;

/// Encoding of the binary32 number 2.0.
pub const WEIGHT_TWO: u32 = 0x4000_0000u32;

/// Encoding of the binary32 number -2.0.
pub const WEIGHT_MINUS_TWO: u32 = 0xC000_0000u32;

/// Encoding of the binary32 number 5.0.
pub const WEIGHT_FIVE: u32 = 0x40A0_0000u32;

/// One tap of a convolution filter: the offset of the sampled pixel and its
/// weight.
#[derive(Clone, Copy, Debug)]
pub struct ImageFilterValue {
    pub offset_x: i32,
    pub offset_y: i32,
    pub weight: Scalar32,
}

/// A convolution filter: a list of taps.
#[derive(Clone, Debug)]
pub struct ImageFilter {
    pub filter: Vec<ImageFilterValue>,
}

/// The sum of the weights, taken in binary32 from 0 in the order of the taps.
pub open spec fn weight_sum(s: Seq<(i32, i32, u32)>) -> u32
    decreases s.len(),
{
    if s.len() == 0 {
        0
    } else {
        binary32_add(weight_sum(s.drop_last()), s.last().2)
    }
}

/// The taps with each weight divided (in binary32) by the sum of the weights.
pub open spec fn normalized(s: Seq<(i32, i32, u32)>) -> Seq<(i32, i32, u32)> {
    s.map_values(|t: (i32, i32, u32)| (t.0, t.1, binary32_div(t.2, weight_sum(s))))
}

/// A tap as plain values: offset x, offset y, weight encoding.
pub open spec fn tap(v: ImageFilterValue) -> (i32, i32, u32) {
    (v.offset_x, v.offset_y, v.weight.bits)
}

/// The taps with their x and y offsets exchanged.
pub open spec fn swapped(s: Seq<(i32, i32, u32)>) -> Seq<(i32, i32, u32)> {
    s.map_values(|t: (i32, i32, u32)| (t.1, t.0, t.2))
}

pub open spec fn abs(v: i32) -> int {
    if v < 0 {
        -v
    } else {
        v as int
    }
}

/// The largest distance of a tap from the centre along x; 0 without taps.
pub open spec fn max_abs_x(s: Seq<(i32, i32, u32)>) -> int
    decreases s.len(),
{
    if s.len() == 0 {
        0
    } else {
        let m = max_abs_x(s.drop_last());
        let a = abs(s.last().0);
        if a > m {
            a
        } else {
            m
        }
    }
}

/// The largest distance of a tap from the centre along y; 0 without taps.
pub open spec fn max_abs_y(s: Seq<(i32, i32, u32)>) -> int
    decreases s.len(),
{
    if s.len() == 0 {
        0
    } else {
        let m = max_abs_y(s.drop_last());
        let a = abs(s.last().1);
        if a > m {
            a
        } else {
            m
        }
    }
}

pub open spec fn sharpen_taps() -> Seq<(i32, i32, u32)> {
    seq![
        (-1i32, 0i32, WEIGHT_MINUS_ONE),
        (1i32, 0i32, WEIGHT_MINUS_ONE),
        (0i32, -1i32, WEIGHT_MINUS_ONE),
        (0i32, 1i32, WEIGHT_MINUS_ONE),
        (0i32, 0i32, WEIGHT_FIVE),
    ]
}

pub open spec fn sobel_x_taps() -> Seq<(i32, i32, u32)> {
    seq![
        (-1i32, -1i32, WEIGHT_ONE),
        (-1i32, 0i32, WEIGHT_TWO),
        (-1i32, 1i32, WEIGHT_ONE),
        (1i32, -1i32, WEIGHT_MINUS_ONE),
        (1i32, 0i32, WEIGHT_MINUS_TWO),
        (1i32, 1i32, WEIGHT_MINUS_ONE),
    ]
}

pub open spec fn sobel_y_taps() -> Seq<(i32, i32, u32)> {
    seq![
        (-1i32, -1i32, WEIGHT_ONE),
        (0i32, -1i32, WEIGHT_TWO),
        (1i32, -1i32, WEIGHT_ONE),
        (-1i32, 1i32, WEIGHT_MINUS_ONE),
        (0i32, 1i32, WEIGHT_MINUS_TWO),
        (1i32, 1i32, WEIGHT_MINUS_ONE),
    ]
}

pub open spec fn prewit_x_taps() -> Seq<(i32, i32, u32)> {
    seq![
        (-1i32, -1i32, WEIGHT_ONE),
        (-1i32, 0i32, WEIGHT_ONE),
        (-1i32, 1i32, WEIGHT_ONE),
        (1i32, -1i32, WEIGHT_MINUS_ONE),
        (1i32, 0i32, WEIGHT_MINUS_ONE),
        (1i32, 1i32, WEIGHT_MINUS_ONE),
    ]
}

pub open spec fn prewit_y_taps() -> Seq<(i32, i32, u32)> {
    seq![
        (-1i32, -1i32, WEIGHT_ONE),
        (0i32, -1i32, WEIGHT_ONE),
        (1i32, -1i32, WEIGHT_ONE),
        (-1i32, 1i32, WEIGHT_MINUS_ONE),
        (0i32, 1i32, WEIGHT_MINUS_ONE),
        (1i32, 1i32, WEIGHT_MINUS_ONE),
    ]
}

impl ImageFilterValue {
    pub fn new(x: i32, y: i32, weight: Scalar32) -> (v: ImageFilterValue)
        ensures
            v.offset_x == x,
            v.offset_y == y,
            v.weight == weight,
    {
        ImageFilterValue { offset_x: x, offset_y: y, weight }
    }
}

fn value(x: i32, y: i32, weight_bits: u32) -> (v: ImageFilterValue)
    ensures
        tap(v) == (x, y, weight_bits),
{
    ImageFilterValue::new(x, y, Scalar32::from_bits(weight_bits))
}

impl ImageFilter {
    pub open spec fn taps(&self) -> Seq<(i32, i32, u32)> {
        self.filter@.map_values(|v: ImageFilterValue| tap(v))
    }

    /// The sharpening filter: the pixel weighted 5, its four neighbours -1.
    pub fn sharpen() -> (f: ImageFilter)
        ensures
            f.taps() == sharpen_taps(),
    {
        let f = ImageFilter {
            filter: vec![
                value(-1, 0, WEIGHT_MINUS_ONE),
                value(1, 0, WEIGHT_MINUS_ONE),
                value(0, -1, WEIGHT_MINUS_ONE),
                value(0, 1, WEIGHT_MINUS_ONE),
                value(0, 0, WEIGHT_FIVE),
            ],
        };
        assert(f.taps() =~= sharpen_taps());
        f
    }

    /// The Sobel filter: the taps of both directions, x first.
    pub fn sobel() -> (f: ImageFilter)
        ensures
            f.taps() == sobel_x_taps() + sobel_y_taps(),
    {
        let mut entries = ImageFilter::sobel_x().filter;
        let mut rest = ImageFilter::sobel_y().filter;
        let ghost a = entries@;
        let ghost b = rest@;
        entries.append(&mut rest);
        let f = ImageFilter { filter: entries };
        assert(f.filter@ == a + b);
        assert(f.taps() =~= sobel_x_taps() + sobel_y_taps());
        f
    }

    /// The Sobel filter along x.
    pub fn sobel_x() -> (f: ImageFilter)
        ensures
            f.taps() == sobel_x_taps(),
    {
        let f = ImageFilter {
            filter: vec![
                value(-1, -1, WEIGHT_ONE),
                value(-1, 0, WEIGHT_TWO),
                value(-1, 1, WEIGHT_ONE),
                value(1, -1, WEIGHT_MINUS_ONE),
                value(1, 0, WEIGHT_MINUS_TWO),
                value(1, 1, WEIGHT_MINUS_ONE),
            ],
        };
        assert(f.taps() =~= sobel_x_taps());
        f
    }

    /// The Sobel filter along y.
    pub fn sobel_y() -> (f: ImageFilter)
        ensures
            f.taps() == sobel_y_taps(),
    {
        let f = ImageFilter {
            filter: vec![
                value(-1, -1, WEIGHT_ONE),
                value(0, -1, WEIGHT_TWO),
                value(1, -1, WEIGHT_ONE),
                value(-1, 1, WEIGHT_MINUS_ONE),
                value(0, 1, WEIGHT_MINUS_TWO),
                value(1, 1, WEIGHT_MINUS_ONE),
            ],
        };
        assert(f.taps() =~= sobel_y_taps());
        f
    }

    /// The Prewitt filter: the taps of both directions, x first.
    pub fn prewit() -> (f: ImageFilter)
        ensures
            f.taps() == prewit_x_taps() + prewit_y_taps(),
    {
        let mut entries = ImageFilter::prewit_x().filter;
        let mut rest = ImageFilter::prewit_y().filter;
        let ghost a = entries@;
        let ghost b = rest@;
        entries.append(&mut rest);
        let f = ImageFilter { filter: entries };
        assert(f.filter@ == a + b);
        assert(f.taps() =~= prewit_x_taps() + prewit_y_taps());
        f
    }

    /// The Prewitt filter along x.
    pub fn prewit_x() -> (f: ImageFilter)
        ensures
            f.taps() == prewit_x_taps(),
    {
        let f = ImageFilter {
            filter: vec![
                value(-1, -1, WEIGHT_ONE),
                value(-1, 0, WEIGHT_ONE),
                value(-1, 1, WEIGHT_ONE),
                value(1, -1, WEIGHT_MINUS_ONE),
                value(1, 0, WEIGHT_MINUS_ONE),
                value(1, 1, WEIGHT_MINUS_ONE),
            ],
        };
        assert(f.taps() =~= prewit_x_taps());
        f
    }

    /// The Prewitt filter along y.
    pub fn prewit_y() -> (f: ImageFilter)
        ensures
            f.taps() == prewit_y_taps(),
    {
        let f = ImageFilter {
            filter: vec![
                value(-1, -1, WEIGHT_ONE),
                value(0, -1, WEIGHT_ONE),
                value(1, -1, WEIGHT_ONE),
                value(-1, 1, WEIGHT_MINUS_ONE),
                value(0, 1, WEIGHT_MINUS_ONE),
                value(1, 1, WEIGHT_MINUS_ONE),
            ],
        };
        assert(f.taps() =~= prewit_y_taps());
        f
    }

    /// Divides every weight by the sum of the weights, so that they add up
    /// to one.
    pub fn normalize(&mut self)
        ensures
            final(self).taps() == normalized(old(self).taps()),
    {
        let mut acc = Scalar32::from_bits(0);
        let mut i: usize = 0;
        while i < self.filter.len()
            invariant
                i <= self.filter@.len(),
                acc.bits == weight_sum(self.taps().take(i as int)),
            decreases self.filter@.len() - i,
        {
            assert(self.taps().take(i + 1).drop_last() == self.taps().take(i as int));
            acc = acc.add(self.filter[i].weight);
            i = i + 1;
        }
        assert(self.taps().take(self.filter@.len() as int) == self.taps());
        let mut i: usize = 0;
        while i < self.filter.len()
            invariant
                i <= self.filter@.len(),
                self.filter@.len() == old(self).filter@.len(),
                acc.bits == weight_sum(old(self).taps()),
                forall|j: int|
                    0 <= j < i ==> #[trigger] tap(self.filter@[j]) == ({
                        let t = tap(old(self).filter@[j]);
                        (t.0, t.1, binary32_div(t.2, acc.bits))
                    }),
                forall|j: int| i <= j < self.filter@.len() ==> #[trigger] self.filter@[j] == old(self).filter@[j],
            decreases self.filter@.len() - i,
        {
            let val = self.filter[i];
            let scaled = ImageFilterValue { offset_x: val.offset_x, offset_y: val.offset_y, weight: val.weight.div(acc) };
            self.filter.set(i, scaled);
            i = i + 1;
        }
        assert(self.taps() =~= normalized(old(self).taps()));
    }

    /// Exchanges the x and y offsets of every tap.
    pub fn flip(&mut self)
        ensures
            final(self).taps() == swapped(old(self).taps()),
    {
        let mut i: usize = 0;
        while i < self.filter.len()
            invariant
                i <= self.filter@.len(),
                self.filter@.len() == old(self).filter@.len(),
                forall|j: int|
                    0 <= j < i ==> #[trigger] tap(self.filter@[j]) == ({
                        let t = tap(old(self).filter@[j]);
                        (t.1, t.0, t.2)
                    }),
                forall|j: int| i <= j < self.filter@.len() ==> #[trigger] self.filter@[j] == old(self).filter@[j],
            decreases self.filter@.len() - i,
        {
            let val = self.filter[i];
            let flipped = ImageFilterValue { offset_x: val.offset_y, offset_y: val.offset_x, weight: val.weight };
            self.filter.set(i, flipped);
            i = i + 1;
        }
        assert(self.taps() =~= swapped(old(self).taps()));
    }

    /// The filter with x and y exchanged.
    pub fn flipped(self) -> (f: ImageFilter)
        ensures
            f.taps() == swapped(self.taps()),
    {
        let mut f = self;
        f.flip();
        f
    }

    /// How far the taps reach along x.
    pub fn radius_x(&self) -> (r: u32)
        requires
            forall|i: int| 0 <= i < self.filter@.len() ==> #[trigger] self.filter@[i].offset_x != i32::MIN,
        ensures
            r == max_abs_x(self.taps()),
    {
        let mut largest: i32 = 0;
        let mut i: usize = 0;
        while i < self.filter.len()
            invariant
                i <= self.filter@.len(),
                forall|i: int| 0 <= i < self.filter@.len() ==> #[trigger] self.filter@[i].offset_x != i32::MIN,
                largest == max_abs_x(self.taps().take(i as int)),
                0 <= largest,
            decreases self.filter@.len() - i,
        {
            assert(self.taps().take(i + 1).drop_last() == self.taps().take(i as int));
            let x = self.filter[i].offset_x;
            let a = if x < 0 { -x } else { x };
            if a > largest {
                largest = a;
            }
            i = i + 1;
        }
        assert(self.taps().take(self.filter@.len() as int) == self.taps());
        largest as u32
    }

    /// How far the taps reach along y.
    pub fn radius_y(&self) -> (r: u32)
        requires
            forall|i: int| 0 <= i < self.filter@.len() ==> #[trigger] self.filter@[i].offset_y != i32::MIN,
        ensures
            r == max_abs_y(self.taps()),
    {
        let mut largest: i32 = 0;
        let mut i: usize = 0;
        while i < self.filter.len()
            invariant
                i <= self.filter@.len(),
                forall|i: int| 0 <= i < self.filter@.len() ==> #[trigger] self.filter@[i].offset_y != i32::MIN,
                largest == max_abs_y(self.taps().take(i as int)),
                0 <= largest,
            decreases self.filter@.len() - i,
        {
            assert(self.taps().take(i + 1).drop_last() == self.taps().take(i as int));
            let y = self.filter[i].offset_y;
            let a = if y < 0 { -y } else { y };
            if a > largest {
                largest = a;
            }
            i = i + 1;
        }
        assert(self.taps().take(self.filter@.len() as int) == self.taps());
        largest as u32
    }
}

} // verus!
