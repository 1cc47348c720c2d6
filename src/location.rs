use vstd::prelude::*;

use crate::geometry::Region;

verus! {

/// Where text sits inside its box: a horizontal side and a vertical side.
#[derive(Clone, Copy, Debug, PartialEq, Eq, Structural)]
pub enum TextAlignment {
    LeftUp,
    LeftCenter,
    LeftDown,
    CenterUp,
    Center,
    CenterDown,
    RightUp,
    RightCenter,
    RightDown,
}

/// The part of the horizontal leftover `buffer` that lies left of the text.
pub open spec fn horizontal_offset(alignment: TextAlignment, buffer: int) -> int {
    match alignment {
        TextAlignment::LeftUp | TextAlignment::LeftCenter | TextAlignment::LeftDown => 0,
        TextAlignment::CenterUp | TextAlignment::Center | TextAlignment::CenterDown => buffer / 2,
        TextAlignment::RightUp | TextAlignment::RightCenter | TextAlignment::RightDown => buffer,
    }
}

/// The part of the vertical leftover `buffer` that lies below the text. The y axis
/// grows upwards: text aligned up keeps the whole leftover below it.
pub open spec fn vertical_offset(alignment: TextAlignment, buffer: int) -> int {
    match alignment {
        TextAlignment::LeftUp | TextAlignment::CenterUp | TextAlignment::RightUp => buffer,
        TextAlignment::LeftCenter | TextAlignment::Center | TextAlignment::RightCenter => buffer
            / 2,
        TextAlignment::LeftDown | TextAlignment::CenterDown | TextAlignment::RightDown => 0,
    }
}

/// Width of the drawn text: its natural width at the full height of `max`, cut down
/// to the width of `max` when it does not fit.
pub open spec fn fitted_width(max: Region, natural_width: int) -> int {
    if natural_width <= max.width() {
        natural_width
    } else {
        max.width()
    }
}

/// Height of the drawn text: the full height of `max`, shrunk by the same factor as
/// the width when the text does not fit (rounded down to the grid).
pub open spec fn fitted_height(max: Region, natural_width: int) -> int {
    if natural_width <= max.width() {
        max.height()
    } else {
        max.height() * max.width() / natural_width
    }
}

/// `r` is the box that text of the given natural width occupies inside `max` under `alignment`.
pub open spec fn is_aligned_region(
    r: Region,
    max: Region,
    alignment: TextAlignment,
    natural_width: int,
) -> bool {
    let w = fitted_width(max, natural_width);
    let h = fitted_height(max, natural_width);
    &&& r.min_x == max.min_x + horizontal_offset(alignment, max.width() - w)
    &&& r.min_y == max.min_y + vertical_offset(alignment, max.height() - h)
    &&& r.max_x == r.min_x + w
    &&& r.max_y == r.min_y + h
}

/// Places text inside a fixed box under a fixed alignment.
#[derive(Clone, Copy, Debug, PartialEq, Eq, Structural)]
pub struct AlignedTextLocation {
    pub max_region: Region,
    pub alignment: TextAlignment,
    pub clear_remaining: bool,
}

impl AlignedTextLocation {
    pub open spec fn wf(self) -> bool {
        self.max_region.wf()
    }

    pub fn new(max_region: Region, alignment: TextAlignment, clear_remaining: bool) -> (r:
        AlignedTextLocation)
        requires
            max_region.wf(),
        ensures
            r == (AlignedTextLocation { max_region, alignment, clear_remaining }),
            r.wf(),
    {
        AlignedTextLocation { max_region, alignment, clear_remaining }
    }

    pub fn get_max_region(&self) -> (r: Region)
        ensures
            r == self.max_region,
    {
        self.max_region
    }

    /// The box that text of natural width `natural_width` (its width when drawn at the
    /// full height of the maximum box) is drawn into.
    pub fn get_current_region(&self, natural_width: u32) -> (r: Region)
        requires
            self.wf(),
        ensures
            is_aligned_region(r, self.max_region, self.alignment, natural_width as int),
            r.wf(),
            self.max_region.contains_region(r),
    {
        proof {
            lemma_fitted_size_bounds(self.max_region, natural_width as int);
        }
        let max = self.max_region;
        let w: u64 = max.get_width() as u64;
        let h: u64 = max.get_height() as u64;
        let nw: u64 = natural_width as u64;
        let draw_w: u64;
        let draw_h: u64;
        if nw <= w {
            draw_w = nw;
            draw_h = h;
        } else {
            proof {
                lemma_shrunk_height(h as int, w as int, nw as int);
                assert(h * w <= u32::MAX * u32::MAX) by (nonlinear_arith)
                    requires
                        h <= u32::MAX,
                        w <= u32::MAX,
                ;
            }
            draw_w = w;
            draw_h = h * w / nw;
        }
        let buffer_x: u64 = w - draw_w;
        let buffer_y: u64 = h - draw_h;
        let offset_x: u64 = match self.alignment {
            TextAlignment::LeftUp | TextAlignment::LeftCenter | TextAlignment::LeftDown => 0,
            TextAlignment::CenterUp | TextAlignment::Center | TextAlignment::CenterDown => buffer_x
                / 2,
            TextAlignment::RightUp | TextAlignment::RightCenter | TextAlignment::RightDown =>
                buffer_x,
        };
        let offset_y: u64 = match self.alignment {
            TextAlignment::LeftUp | TextAlignment::CenterUp | TextAlignment::RightUp => buffer_y,
            TextAlignment::LeftCenter | TextAlignment::Center | TextAlignment::RightCenter =>
                buffer_y / 2,
            TextAlignment::LeftDown | TextAlignment::CenterDown | TextAlignment::RightDown => 0,
        };
        let min_x: i64 = max.min_x as i64 + offset_x as i64;
        let min_y: i64 = max.min_y as i64 + offset_y as i64;
        Region {
            min_x: min_x as i32,
            min_y: min_y as i32,
            max_x: (min_x + draw_w as i64) as i32,
            max_y: (min_y + draw_h as i64) as i32,
        }
    }

    /// Whether the part of the maximum box that the text leaves free is cleared
    /// before the text is drawn: a fixed choice of each location.
    pub fn should_clear_remaining(&self) -> (r: bool)
        ensures
            r == self.clear_remaining,
    {
        self.clear_remaining
    }
}

/// A label: text placed under `alignment`, the free part of the box left alone.
pub fn label_location(max_region: Region, alignment: TextAlignment) -> (r: AlignedTextLocation)
    requires
        max_region.wf(),
    ensures
        r == (AlignedTextLocation { max_region, alignment, clear_remaining: false }),
{
    AlignedTextLocation::new(max_region, alignment, false)
}

/// A button: text centred in the box, the free part of the box left alone.
pub fn button_location(max_region: Region) -> (r: AlignedTextLocation)
    requires
        max_region.wf(),
    ensures
        r == (AlignedTextLocation {
            max_region,
            alignment: TextAlignment::Center,
            clear_remaining: false,
        }),
{
    AlignedTextLocation::new(max_region, TextAlignment::Center, false)
}

/// A button with its text on the left, centred vertically.
pub fn left_button_location(max_region: Region) -> (r: AlignedTextLocation)
    requires
        max_region.wf(),
    ensures
        r == (AlignedTextLocation {
            max_region,
            alignment: TextAlignment::LeftCenter,
            clear_remaining: false,
        }),
{
    AlignedTextLocation::new(max_region, TextAlignment::LeftCenter, false)
}

/// An edit field: text on the left, centred vertically, and the free part of the box
/// cleared on each draw since the text changes under it.
pub fn edit_location(max_region: Region) -> (r: AlignedTextLocation)
    requires
        max_region.wf(),
    ensures
        r == (AlignedTextLocation {
            max_region,
            alignment: TextAlignment::LeftCenter,
            clear_remaining: true,
        }),
{
    AlignedTextLocation::new(max_region, TextAlignment::LeftCenter, true)
}

/// Shrinking a height `h` by the factor `w / nw < 1` gives a value in `0..=h`.
proof fn lemma_shrunk_height(h: int, w: int, nw: int)
    requires
        0 <= h,
        0 <= w < nw,
    ensures
        0 <= h * w / nw <= h,
{
    assert(h * w <= nw * h) by (nonlinear_arith)
        requires
            0 <= h,
            w < nw,
    ;
    assert(0 <= h * w) by (nonlinear_arith)
        requires
            0 <= h,
            0 <= w,
    ;
    vstd::arithmetic::div_mod::lemma_div_is_ordered(h * w, nw * h, nw);
    vstd::arithmetic::div_mod::lemma_div_multiples_vanish(h, nw);
    vstd::arithmetic::div_mod::lemma_div_pos_is_pos(h * w, nw);
}

/// The fitted size never exceeds the maximum box and is never negative.
proof fn lemma_fitted_size_bounds(max: Region, natural_width: int)
    requires
        max.wf(),
        0 <= natural_width,
    ensures
        0 <= fitted_width(max, natural_width) <= max.width(),
        0 <= fitted_height(max, natural_width) <= max.height(),
{
    if natural_width > max.width() {
        lemma_shrunk_height(max.height(), max.width(), natural_width);
    }
}

/// The drawn box lies inside the maximum box on both axes, for every alignment and
/// every natural width of the text.
pub proof fn lemma_aligned_region_within_max(
    r: Region,
    max: Region,
    alignment: TextAlignment,
    natural_width: int,
)
    requires
        max.wf(),
        0 <= natural_width,
        is_aligned_region(r, max, alignment, natural_width),
    ensures
        max.contains_region(r),
        r.wf(),
{
    lemma_fitted_size_bounds(max, natural_width);
}

/// Text that fits the width of the maximum box is drawn at its natural width and at
/// the full height of the box, without scaling.
pub proof fn lemma_fitting_text_is_unscaled(
    r: Region,
    max: Region,
    alignment: TextAlignment,
    natural_width: int,
)
    requires
        max.wf(),
        0 <= natural_width <= max.width(),
        is_aligned_region(r, max, alignment, natural_width),
    ensures
        r.width() == natural_width,
        r.height() == max.height(),
{
}

/// Text wider than the maximum box is drawn exactly as wide as the box, and its
/// height shrinks by the same factor: `r.height() / max.height()` equals
/// `max.width() / natural_width` up to rounding down to the grid.
pub proof fn lemma_wide_text_keeps_aspect_ratio(
    r: Region,
    max: Region,
    alignment: TextAlignment,
    natural_width: int,
)
    requires
        max.wf(),
        max.width() < natural_width,
        is_aligned_region(r, max, alignment, natural_width),
    ensures
        r.width() == max.width(),
        r.height() * natural_width <= max.height() * max.width(),
        max.height() * max.width() < (r.height() + 1) * natural_width,
{
    let p = max.height() * max.width();
    vstd::arithmetic::div_mod::lemma_fundamental_div_mod(p, natural_width);
    assert(r.height() == p / natural_width);
    assert(0 <= p % natural_width < natural_width);
    assert((r.height() + 1) * natural_width == natural_width * r.height() + natural_width)
        by (nonlinear_arith);
    assert(r.height() * natural_width == natural_width * r.height()) by (nonlinear_arith);
}

/// The drawn box depends on the maximum box, the alignment and the natural width
/// alone: two computations from the same inputs give the same box.
pub proof fn lemma_aligned_region_is_unique(
    r1: Region,
    r2: Region,
    max: Region,
    alignment: TextAlignment,
    natural_width: int,
)
    requires
        is_aligned_region(r1, max, alignment, natural_width),
        is_aligned_region(r2, max, alignment, natural_width),
    ensures
        r1 == r2,
{
}

} // verus!
