use vstd::prelude::*;

use crate::color::{Color, TextColors};
use crate::geometry::Region;
use crate::location::{is_aligned_region, AlignedTextLocation};
use crate::render::{Cursor, RenderPlan};

verus! {

/// Brightens a channel a third of the way towards full intensity.
pub open spec fn spec_lighten_component(component: u8) -> int {
    (component * 2 + 255) / 3
}

pub open spec fn spec_lighten_color(color: Color) -> Color {
    Color {
        red: spec_lighten_component(color.red) as u8,
        green: spec_lighten_component(color.green) as u8,
        blue: spec_lighten_component(color.blue) as u8,
        alpha: spec_lighten_component(color.alpha) as u8,
    }
}

/// The palette of a hovered button: every colour lighter.
pub open spec fn spec_lighten_colors(colors: TextColors) -> TextColors {
    TextColors {
        fill_color: spec_lighten_color(colors.fill_color),
        stroke_color: spec_lighten_color(colors.stroke_color),
        background_color: spec_lighten_color(colors.background_color),
    }
}

pub fn lighten_component(component: u8) -> (r: u8)
    ensures
        r == spec_lighten_component(component),
{
    ((component as u16 * 2 + 255) / 3) as u8
}

pub fn lighten_color(color: Color) -> (r: Color)
    ensures
        r == spec_lighten_color(color),
{
    Color {
        red: lighten_component(color.red),
        green: lighten_component(color.green),
        blue: lighten_component(color.blue),
        alpha: lighten_component(color.alpha),
    }
}

pub fn lighten_colors(colors: TextColors) -> (r: TextColors)
    ensures
        r == spec_lighten_colors(colors),
{
    TextColors {
        fill_color: lighten_color(colors.fill_color),
        stroke_color: lighten_color(colors.stroke_color),
        background_color: lighten_color(colors.background_color),
    }
}

/// The state of a text button as its contracts see it.
pub ghost struct ButtonView {
    pub region: AlignedTextLocation,
    pub base_colors: TextColors,
    pub hover_colors: TextColors,
    /// The mouse is over the drawn text.
    pub mouse_over: bool,
    pub text: Seq<char>,
}

/// A button that shows a text, with a second palette while the mouse is over it.
pub struct ButtonTextRenderController {
    region: AlignedTextLocation,
    base_colors: TextColors,
    hover_colors: TextColors,
    mouse_over: bool,
    text: String,
}

impl View for ButtonTextRenderController {
    type V = ButtonView;

    closed spec fn view(&self) -> ButtonView {
        ButtonView {
            region: self.region,
            base_colors: self.base_colors,
            hover_colors: self.hover_colors,
            mouse_over: self.mouse_over,
            text: self.text@,
        }
    }
}

/// The palette shown: the hover one while the mouse is over the button.
pub open spec fn spec_button_colors(v: ButtonView) -> TextColors {
    if v.mouse_over {
        v.hover_colors
    } else {
        v.base_colors
    }
}

impl ButtonTextRenderController {
    #[verifier::type_invariant]
    spec fn inv(&self) -> bool {
        self.region.wf()
    }

    /// A button showing `text`, with the mouse away.
    pub fn new(
        text: &str,
        region: AlignedTextLocation,
        base_colors: TextColors,
        hover_colors: TextColors,
    ) -> (r: ButtonTextRenderController)
        requires
            region.wf(),
        ensures
            r@ == (ButtonView {
                region,
                base_colors,
                hover_colors,
                mouse_over: false,
                text: text@,
            }),
    {
        ButtonTextRenderController {
            region,
            base_colors,
            hover_colors,
            mouse_over: false,
            text: text.to_owned(),
        }
    }

    /// A button whose hover palette is its base palette lightened.
    pub fn simple(text: &str, region: AlignedTextLocation, colors: TextColors) -> (r:
        ButtonTextRenderController)
        requires
            region.wf(),
        ensures
            r@ == (ButtonView {
                region,
                base_colors: colors,
                hover_colors: spec_lighten_colors(colors),
                mouse_over: false,
                text: text@,
            }),
    {
        Self::new(text, region, colors, lighten_colors(colors))
    }

    // Palette setters. The host redraws the button after each of them.
    pub fn set_base_fill_color(&mut self, new_color: Color)
        ensures
            final(self)@ == (ButtonView {
                base_colors: TextColors {
                    fill_color: new_color,
                    ..old(self)@.base_colors
                },
                ..old(self)@
            }),
    {
        proof {
            use_type_invariant(&*self);
        }
        self.base_colors.fill_color = new_color;
    }

    pub fn set_base_stroke_color(&mut self, new_color: Color)
        ensures
            final(self)@ == (ButtonView {
                base_colors: TextColors {
                    stroke_color: new_color,
                    ..old(self)@.base_colors
                },
                ..old(self)@
            }),
    {
        proof {
            use_type_invariant(&*self);
        }
        self.base_colors.stroke_color = new_color;
    }

    pub fn set_base_background_color(&mut self, new_color: Color)
        ensures
            final(self)@ == (ButtonView {
                base_colors: TextColors {
                    background_color: new_color,
                    ..old(self)@.base_colors
                },
                ..old(self)@
            }),
    {
        proof {
            use_type_invariant(&*self);
        }
        self.base_colors.background_color = new_color;
    }

    pub fn set_base_colors(&mut self, new_colors: TextColors)
        ensures
            final(self)@ == (ButtonView { base_colors: new_colors, ..old(self)@ }),
    {
        proof {
            use_type_invariant(&*self);
        }
        self.base_colors = new_colors;
    }

    pub fn set_hover_fill_color(&mut self, new_color: Color)
        ensures
            final(self)@ == (ButtonView {
                hover_colors: TextColors {
                    fill_color: new_color,
                    ..old(self)@.hover_colors
                },
                ..old(self)@
            }),
    {
        proof {
            use_type_invariant(&*self);
        }
        self.hover_colors.fill_color = new_color;
    }

    pub fn set_hover_stroke_color(&mut self, new_color: Color)
        ensures
            final(self)@ == (ButtonView {
                hover_colors: TextColors {
                    stroke_color: new_color,
                    ..old(self)@.hover_colors
                },
                ..old(self)@
            }),
    {
        proof {
            use_type_invariant(&*self);
        }
        self.hover_colors.stroke_color = new_color;
    }

    pub fn set_hover_background_color(&mut self, new_color: Color)
        ensures
            final(self)@ == (ButtonView {
                hover_colors: TextColors {
                    background_color: new_color,
                    ..old(self)@.hover_colors
                },
                ..old(self)@
            }),
    {
        proof {
            use_type_invariant(&*self);
        }
        self.hover_colors.background_color = new_color;
    }

    pub fn set_hover_colors(&mut self, new_colors: TextColors)
        ensures
            final(self)@ == (ButtonView { hover_colors: new_colors, ..old(self)@ }),
    {
        proof {
            use_type_invariant(&*self);
        }
        self.hover_colors = new_colors;
    }

    /// Sets the fill colour of both palettes: as given, and lighter when hovered.
    pub fn set_fill_color(&mut self, new_color: Color)
        ensures
            final(self)@ == (ButtonView {
                base_colors: TextColors { fill_color: new_color, ..old(self)@.base_colors },
                hover_colors: TextColors {
                    fill_color: spec_lighten_color(new_color),
                    ..old(self)@.hover_colors
                },
                ..old(self)@
            }),
    {
        proof {
            use_type_invariant(&*self);
        }
        self.base_colors.fill_color = new_color;
        self.hover_colors.fill_color = lighten_color(new_color);
    }

    /// Sets the stroke colour of both palettes: as given, and lighter when hovered.
    pub fn set_stroke_color(&mut self, new_color: Color)
        ensures
            final(self)@ == (ButtonView {
                base_colors: TextColors { stroke_color: new_color, ..old(self)@.base_colors },
                hover_colors: TextColors {
                    stroke_color: spec_lighten_color(new_color),
                    ..old(self)@.hover_colors
                },
                ..old(self)@
            }),
    {
        proof {
            use_type_invariant(&*self);
        }
        self.base_colors.stroke_color = new_color;
        self.hover_colors.stroke_color = lighten_color(new_color);
    }

    /// Sets the background colour of both palettes: as given, and lighter when hovered.
    pub fn set_background_color(&mut self, new_color: Color)
        ensures
            final(self)@ == (ButtonView {
                base_colors: TextColors { background_color: new_color, ..old(self)@.base_colors },
                hover_colors: TextColors {
                    background_color: spec_lighten_color(new_color),
                    ..old(self)@.hover_colors
                },
                ..old(self)@
            }),
    {
        proof {
            use_type_invariant(&*self);
        }
        self.base_colors.background_color = new_color;
        self.hover_colors.background_color = lighten_color(new_color);
    }

    /// Sets the base palette and derives the hover palette from it.
    pub fn set_colors(&mut self, new_colors: TextColors)
        ensures
            final(self)@ == (ButtonView {
                base_colors: new_colors,
                hover_colors: spec_lighten_colors(new_colors),
                ..old(self)@
            }),
    {
        proof {
            use_type_invariant(&*self);
        }
        self.base_colors = new_colors;
        self.hover_colors = lighten_colors(new_colors);
    }

    pub fn get_base_colors(&self) -> (r: TextColors)
        ensures
            r == self@.base_colors,
    {
        self.base_colors
    }

    pub fn get_hover_colors(&self) -> (r: TextColors)
        ensures
            r == self@.hover_colors,
    {
        self.hover_colors
    }

    pub fn is_mouse_over(&self) -> (r: bool)
        ensures
            r == self@.mouse_over,
    {
        self.mouse_over
    }

    pub fn get_text(&self) -> (r: &str)
        ensures
            r@ == self@.text,
    {
        self.text.as_str()
    }

    /// Replaces the text; its text model is to be rebuilt.
    pub fn set_text(&mut self, new_text: &str)
        ensures
            final(self)@ == (ButtonView { text: new_text@, ..old(self)@ }),
    {
        proof {
            use_type_invariant(&*self);
        }
        self.text = new_text.to_owned();
    }

    pub fn get_max_region(&self) -> (r: Region)
        ensures
            r == self@.region.max_region,
            r.wf(),
    {
        proof {
            use_type_invariant(self);
        }
        self.region.max_region
    }

    /// The box the text is drawn into, for text of natural width `natural_width`.
    pub fn get_current_region(&self, natural_width: u32) -> (r: Region)
        ensures
            is_aligned_region(
                r,
                self@.region.max_region,
                self@.region.alignment,
                natural_width as int,
            ),
            self@.region.max_region.contains_region(r),
    {
        proof {
            use_type_invariant(self);
        }
        self.region.get_current_region(natural_width)
    }

    /// The pointer cursor while the mouse is over the button.
    pub fn get_cursor(&self) -> (r: Option<Cursor>)
        ensures
            r == (if self@.mouse_over {
                Some(Cursor::Pointer)
            } else {
                None
            }),
    {
        if self.mouse_over {
            Some(Cursor::Pointer)
        } else {
            None
        }
    }

    /// One frame: the box of the text is passed down and, where the location asks for
    /// it, the maximum box is cleared with the background; then the text is drawn.
    pub fn render(&self, natural_width: u32) -> (r: RenderPlan)
        ensures
            is_aligned_region(
                r.text_region,
                self@.region.max_region,
                self@.region.alignment,
                natural_width as int,
            ),
            r.colors == spec_button_colors(self@),
            r.clear_region == (if self@.region.clear_remaining {
                Some(self@.region.max_region)
            } else {
                None
            }),
            r.cursor == (if self@.mouse_over {
                Some(Cursor::Pointer)
            } else {
                None
            }),
            r.passed_region == Some(r.text_region),
    {
        let text_region = self.get_current_region(natural_width);
        let colors = if self.mouse_over {
            self.hover_colors
        } else {
            self.base_colors
        };
        let clear_region = if self.region.should_clear_remaining() {
            Some(self.get_max_region())
        } else {
            None
        };
        RenderPlan {
            text_region,
            colors,
            clear_region,
            cursor: self.get_cursor(),
            passed_region: Some(text_region),
        }
    }

    /// Follows the mouse to `position` (none when it left the host area); the button
    /// counts as hovered while the mouse is over its drawn text. Returns whether the
    /// button must be redrawn: the hover state changed.
    pub fn mouse_move(&mut self, position: Option<(i32, i32)>, natural_width: u32) -> (redraw:
        bool)
        ensures
            exists|current: Region|
                is_aligned_region(
                    current,
                    old(self)@.region.max_region,
                    old(self)@.region.alignment,
                    natural_width as int,
                ) && final(self)@ == (ButtonView {
                    mouse_over: current.contains_position_spec(position),
                    ..old(self)@
                }),
            redraw == (old(self)@.mouse_over != final(self)@.mouse_over),
    {
        proof {
            use_type_invariant(&*self);
        }
        let current = self.region.get_current_region(natural_width);
        let new_mouse_over = current.contains_position(position);
        let redraw = self.mouse_over != new_mouse_over;
        self.mouse_over = new_mouse_over;
        redraw
    }
}

} // verus!
