use vstd::prelude::*;

use crate::color::TextColors;
use crate::geometry::Region;

verus! {

/// The cursor shape a widget asks for while the mouse is over it.
#[derive(Clone, Copy, Debug, PartialEq, Eq, Structural)]
pub enum Cursor {
    Pointer,
    Text,
}

/// How much of its render space a widget covers, as announced to the host.
#[derive(Clone, Copy, Debug, PartialEq, Eq, Structural)]
pub enum RenderOpacity {
    /// Every palette is fully solid.
    StaticSolidOrNothing,
    /// Some palette is not fully solid, but no colour is partly transparent.
    DynamicSolidOrNothing,
    /// Some colour is partly transparent.
    Mixed,
}

/// What the host's colour model says of one palette.
#[derive(Clone, Copy, Debug, PartialEq, Eq, Structural)]
pub struct PaletteOpacity {
    /// Every colour of the palette is fully opaque.
    pub fully_solid: bool,
    /// Some colour of the palette is neither opaque nor fully transparent.
    pub partial_transparency: bool,
}

pub open spec fn spec_render_opacity(palettes: Seq<PaletteOpacity>) -> RenderOpacity {
    if forall|i: int| 0 <= i < palettes.len() ==> #[trigger] palettes[i].fully_solid {
        RenderOpacity::StaticSolidOrNothing
    } else if exists|i: int|
        0 <= i < palettes.len() && #[trigger] palettes[i].partial_transparency {
        RenderOpacity::Mixed
    } else {
        RenderOpacity::DynamicSolidOrNothing
    }
}

/// The opacity a widget announces for the palettes it may draw with.
pub fn determine_render_opacity(palettes: &Vec<PaletteOpacity>) -> (r: RenderOpacity)
    ensures
        r == spec_render_opacity(palettes@),
{
    let mut all_solid = true;
    let mut i: usize = 0;
    while i < palettes.len()
        invariant
            i <= palettes@.len(),
            all_solid == forall|j: int| 0 <= j < i ==> #[trigger] palettes@[j].fully_solid,
        decreases palettes@.len() - i,
    {
        if !palettes[i].fully_solid {
            all_solid = false;
        }
        i = i + 1;
    }
    if all_solid {
        return RenderOpacity::StaticSolidOrNothing;
    }
    let mut has_partial_transparency = false;
    let mut k: usize = 0;
    while k < palettes.len()
        invariant
            k <= palettes@.len(),
            has_partial_transparency == exists|j: int|
                0 <= j < k && #[trigger] palettes@[j].partial_transparency,
        decreases palettes@.len() - k,
    {
        if palettes[k].partial_transparency {
            has_partial_transparency = true;
        }
        k = k + 1;
    }
    if has_partial_transparency {
        RenderOpacity::Mixed
    } else {
        RenderOpacity::DynamicSolidOrNothing
    }
}

/// What one frame of a text widget draws, in order: the optional clear of the
/// maximum box, then the text.
#[derive(Clone, Copy, Debug, PartialEq, Eq, Structural)]
pub struct RenderPlan {
    /// The box the text is drawn into; the text is drawn at this box's height.
    pub text_region: Region,
    /// The palette the text is drawn with.
    pub colors: TextColors,
    /// The box to fill with the palette's background before the text, if any.
    pub clear_region: Option<Region>,
    /// The cursor shape asked for.
    pub cursor: Option<Cursor>,
    /// The box whose lower layers the host draws first, if any.
    pub passed_region: Option<Region>,
}

} // verus!
