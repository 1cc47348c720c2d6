use vstd::prelude::*;

use crate::color::{Color, TextColors};
use crate::geometry::Region;
use crate::location::{is_aligned_region, AlignedTextLocation};
use crate::render::RenderPlan;

verus! {

/// The state of a passive label as its contracts see it.
pub ghost struct LabelView {
    pub region: AlignedTextLocation,
    pub colors: TextColors,
    pub text: Seq<char>,
}

/// A passive label: a text in one palette, without reaction to the mouse.
pub struct SimpleTextRenderController {
    region: AlignedTextLocation,
    colors: TextColors,
    text: String,
}

impl View for SimpleTextRenderController {
    type V = LabelView;

    closed spec fn view(&self) -> LabelView {
        LabelView { region: self.region, colors: self.colors, text: self.text@ }
    }
}

impl SimpleTextRenderController {
    #[verifier::type_invariant]
    spec fn inv(&self) -> bool {
        self.region.wf()
    }

    pub fn new(text: &str, region: AlignedTextLocation, colors: TextColors) -> (r:
        SimpleTextRenderController)
        requires
            region.wf(),
        ensures
            r@ == (LabelView { region, colors, text: text@ }),
    {
        SimpleTextRenderController { region, colors, text: text.to_owned() }
    }

    pub fn set_fill_color(&mut self, new_color: Color)
        ensures
            final(self)@ == (LabelView {
                colors: TextColors { fill_color: new_color, ..old(self)@.colors },
                ..old(self)@
            }),
    {
        proof {
            use_type_invariant(&*self);
        }
        self.colors.fill_color = new_color;
    }

    pub fn set_stroke_color(&mut self, new_color: Color)
        ensures
            final(self)@ == (LabelView {
                colors: TextColors { stroke_color: new_color, ..old(self)@.colors },
                ..old(self)@
            }),
    {
        proof {
            use_type_invariant(&*self);
        }
        self.colors.stroke_color = new_color;
    }

    pub fn set_background_color(&mut self, new_color: Color)
        ensures
            final(self)@ == (LabelView {
                colors: TextColors { background_color: new_color, ..old(self)@.colors },
                ..old(self)@
            }),
    {
        proof {
            use_type_invariant(&*self);
        }
        self.colors.background_color = new_color;
    }

    pub fn set_colors(&mut self, new_colors: TextColors)
        ensures
            final(self)@ == (LabelView { colors: new_colors, ..old(self)@ }),
    {
        proof {
            use_type_invariant(&*self);
        }
        self.colors = new_colors;
    }

    pub fn get_colors(&self) -> (r: TextColors)
        ensures
            r == self@.colors,
    {
        self.colors
    }

    pub fn get_text(&self) -> (r: &str)
        ensures
            r@ == self@.text,
    {
        self.text.as_str()
    }

    /// Replaces the text; its text model is to be rebuilt.
    pub fn set_text(&mut self, new_text: &str)
        ensures
            final(self)@ == (LabelView { text: new_text@, ..old(self)@ }),
    {
        proof {
            use_type_invariant(&*self);
        }
        self.text = new_text.to_owned();
    }

    pub fn get_max_region(&self) -> (r: Region)
        ensures
            r == self@.region.max_region,
            r.wf(),
    {
        proof {
            use_type_invariant(self);
        }
        self.region.max_region
    }

    /// The box the text is drawn into, for text of natural width `natural_width`.
    pub fn get_current_region(&self, natural_width: u32) -> (r: Region)
        ensures
            is_aligned_region(
                r,
                self@.region.max_region,
                self@.region.alignment,
                natural_width as int,
            ),
            self@.region.max_region.contains_region(r),
    {
        proof {
            use_type_invariant(self);
        }
        self.region.get_current_region(natural_width)
    }

    /// One frame: where the location asks for it the maximum box is cleared with the
    /// background; then the text is drawn. A label asks for no cursor.
    pub fn render(&self, natural_width: u32) -> (r: RenderPlan)
        ensures
            is_aligned_region(
                r.text_region,
                self@.region.max_region,
                self@.region.alignment,
                natural_width as int,
            ),
            r.colors == self@.colors,
            r.clear_region == (if self@.region.clear_remaining {
                Some(self@.region.max_region)
            } else {
                None
            }),
            r.cursor is None,
            r.passed_region is None,
    {
        let text_region = self.get_current_region(natural_width);
        let clear_region = if self.region.should_clear_remaining() {
            Some(self.get_max_region())
        } else {
            None
        };
        RenderPlan {
            text_region,
            colors: self.colors,
            clear_region,
            cursor: None,
            passed_region: None,
        }
    }
}

} // verus!
