use vstd::prelude::*;

use crate::color::{Color, TextColors};
use crate::geometry::Region;
use crate::keys::{
    classify_key,
    grapheme_count,
    graphemes_of,
    remove_last_grapheme,
    spec_classify_key,
    without_last_cluster,
    KeyAction,
};
use crate::location::{is_aligned_region, AlignedTextLocation};
use crate::render::{Cursor, RenderPlan};

verus! {

/// Brightens a channel halfway towards full intensity.
pub open spec fn spec_lighten_component(component: u8) -> int {
    (component + 255) / 2
}

/// Dims a channel by a twentieth, rounding down.
pub open spec fn spec_darken_component(component: u8) -> int {
    component * 19 / 20
}

pub open spec fn spec_lighten_color(color: Color) -> Color {
    Color {
        red: spec_lighten_component(color.red) as u8,
        green: spec_lighten_component(color.green) as u8,
        blue: spec_lighten_component(color.blue) as u8,
        alpha: spec_lighten_component(color.alpha) as u8,
    }
}

/// Dims the colour channels; the alpha channel is kept.
pub open spec fn spec_darken_color(color: Color) -> Color {
    Color {
        red: spec_darken_component(color.red) as u8,
        green: spec_darken_component(color.green) as u8,
        blue: spec_darken_component(color.blue) as u8,
        alpha: color.alpha,
    }
}

/// The palette of an active field: the base palette on a lighter background.
pub open spec fn spec_to_active_colors(colors: TextColors) -> TextColors {
    TextColors {
        fill_color: colors.fill_color,
        stroke_color: colors.stroke_color,
        background_color: spec_lighten_color(colors.background_color),
    }
}

/// The palette of a hovered field: the base palette on a darker background.
pub open spec fn spec_to_hover_colors(colors: TextColors) -> TextColors {
    TextColors {
        fill_color: colors.fill_color,
        stroke_color: colors.stroke_color,
        background_color: spec_darken_color(colors.background_color),
    }
}

pub fn lighten_component(component: u8) -> (r: u8)
    ensures
        r == spec_lighten_component(component),
{
    ((component as u16 + 255) / 2) as u8
}

pub fn darken_component(component: u8) -> (r: u8)
    ensures
        r == spec_darken_component(component),
{
    ((component as u16 * 19) / 20) as u8
}

pub fn lighten_color(color: Color) -> (r: Color)
    ensures
        r == spec_lighten_color(color),
{
    Color {
        red: lighten_component(color.red),
        green: lighten_component(color.green),
        blue: lighten_component(color.blue),
        alpha: lighten_component(color.alpha),
    }
}

pub fn darken_color(color: Color) -> (r: Color)
    ensures
        r == spec_darken_color(color),
{
    Color {
        red: darken_component(color.red),
        green: darken_component(color.green),
        blue: darken_component(color.blue),
        alpha: color.alpha,
    }
}

pub fn to_active_colors(colors: TextColors) -> (r: TextColors)
    ensures
        r == spec_to_active_colors(colors),
{
    TextColors {
        fill_color: colors.fill_color,
        stroke_color: colors.stroke_color,
        background_color: lighten_color(colors.background_color),
    }
}

pub fn to_hover_colors(colors: TextColors) -> (r: TextColors)
    ensures
        r == spec_to_hover_colors(colors),
{
    TextColors {
        fill_color: colors.fill_color,
        stroke_color: colors.stroke_color,
        background_color: darken_color(colors.background_color),
    }
}

/// A clipboard payload.
#[derive(Debug, PartialEq, Eq)]
pub enum ClipboardData {
    Text(String),
}

impl ClipboardData {
    pub open spec fn text(self) -> Seq<char> {
        match self {
            ClipboardData::Text(s) => s@,
        }
    }
}

/// The state of an edit field as its contracts see it.
pub ghost struct EditFieldView {
    pub region: AlignedTextLocation,
    pub base_colors: TextColors,
    pub hover_colors: TextColors,
    pub active_colors: TextColors,
    /// The field holds the keyboard focus.
    pub active: bool,
    /// The mouse is over the field.
    pub mouse_over: bool,
    /// A click inside an active field leaves the active state.
    pub toggle_on_inside_click: bool,
    pub text: Seq<char>,
}

/// An editable text field: its text, its focus and hover state, and its palettes.
pub struct EditTextRenderController {
    region: AlignedTextLocation,
    base_colors: TextColors,
    hover_colors: TextColors,
    active_colors: TextColors,
    active: bool,
    mouse_over: bool,
    toggle_on_inside_click: bool,
    current_text: String,
}

impl View for EditTextRenderController {
    type V = EditFieldView;

    closed spec fn view(&self) -> EditFieldView {
        EditFieldView {
            region: self.region,
            base_colors: self.base_colors,
            hover_colors: self.hover_colors,
            active_colors: self.active_colors,
            active: self.active,
            mouse_over: self.mouse_over,
            toggle_on_inside_click: self.toggle_on_inside_click,
            text: self.current_text@,
        }
    }
}

/// The palette shown: the active one while the field has focus, else the hover one
/// while the mouse is over it, else the base one.
pub open spec fn spec_visible_colors(v: EditFieldView) -> TextColors {
    if v.active {
        v.active_colors
    } else if v.mouse_over {
        v.hover_colors
    } else {
        v.base_colors
    }
}

/// Whether copy and cut hand out the text: only an active field with some text does.
pub open spec fn exports_text(v: EditFieldView) -> bool {
    v.active && v.text.len() > 0
}

/// `r` is what copying or cutting from a field in state `v` returns.
pub open spec fn is_export_of(r: Option<ClipboardData>, v: EditFieldView) -> bool {
    if exports_text(v) {
        r is Some && r->Some_0.text() == v.text
    } else {
        r is None
    }
}

impl EditTextRenderController {
    #[verifier::type_invariant]
    spec fn inv(&self) -> bool {
        self.region.wf()
    }

    /// A field holding `text`, inactive, with the mouse away.
    pub fn new(
        text: &str,
        region: AlignedTextLocation,
        base_colors: TextColors,
        hover_colors: TextColors,
        active_colors: TextColors,
    ) -> (r: EditTextRenderController)
        requires
            region.wf(),
        ensures
            r@ == (EditFieldView {
                region,
                base_colors,
                hover_colors,
                active_colors,
                active: false,
                mouse_over: false,
                toggle_on_inside_click: false,
                text: text@,
            }),
    {
        EditTextRenderController {
            region,
            base_colors,
            hover_colors,
            active_colors,
            active: false,
            mouse_over: false,
            toggle_on_inside_click: false,
            current_text: text.to_owned(),
        }
    }

    /// A field whose hover and active palettes derive from one base palette.
    pub fn simple(text: &str, region: AlignedTextLocation, colors: TextColors) -> (r:
        EditTextRenderController)
        requires
            region.wf(),
        ensures
            r@ == (EditFieldView {
                region,
                base_colors: colors,
                hover_colors: spec_to_hover_colors(colors),
                active_colors: spec_to_active_colors(colors),
                active: false,
                mouse_over: false,
                toggle_on_inside_click: false,
                text: text@,
            }),
    {
        Self::new(text, region, colors, to_hover_colors(colors), to_active_colors(colors))
    }

    // Palette setters. The host redraws the field after each of them.
    pub fn set_base_fill_color(&mut self, new_color: Color)
        ensures
            final(self)@ == (EditFieldView {
                base_colors: TextColors { fill_color: new_color, ..old(self)@.base_colors },
                ..old(self)@
            }),
    {
        proof {
            use_type_invariant(&*self);
        }
        self.base_colors.fill_color = new_color;
    }

    pub fn set_base_stroke_color(&mut self, new_color: Color)
        ensures
            final(self)@ == (EditFieldView {
                base_colors: TextColors { stroke_color: new_color, ..old(self)@.base_colors },
                ..old(self)@
            }),
    {
        proof {
            use_type_invariant(&*self);
        }
        self.base_colors.stroke_color = new_color;
    }

    pub fn set_base_background_color(&mut self, new_color: Color)
        ensures
            final(self)@ == (EditFieldView {
                base_colors: TextColors { background_color: new_color, ..old(self)@.base_colors },
                ..old(self)@
            }),
    {
        proof {
            use_type_invariant(&*self);
        }
        self.base_colors.background_color = new_color;
    }

    pub fn set_base_colors(&mut self, new_colors: TextColors)
        ensures
            final(self)@ == (EditFieldView { base_colors: new_colors, ..old(self)@ }),
    {
        proof {
            use_type_invariant(&*self);
        }
        self.base_colors = new_colors;
    }

    pub fn set_hover_fill_color(&mut self, new_color: Color)
        ensures
            final(self)@ == (EditFieldView {
                hover_colors: TextColors { fill_color: new_color, ..old(self)@.hover_colors },
                ..old(self)@
            }),
    {
        proof {
            use_type_invariant(&*self);
        }
        self.hover_colors.fill_color = new_color;
    }

    pub fn set_hover_stroke_color(&mut self, new_color: Color)
        ensures
            final(self)@ == (EditFieldView {
                hover_colors: TextColors { stroke_color: new_color, ..old(self)@.hover_colors },
                ..old(self)@
            }),
    {
        proof {
            use_type_invariant(&*self);
        }
        self.hover_colors.stroke_color = new_color;
    }

    pub fn set_hover_background_color(&mut self, new_color: Color)
        ensures
            final(self)@ == (EditFieldView {
                hover_colors: TextColors { background_color: new_color, ..old(self)@.hover_colors },
                ..old(self)@
            }),
    {
        proof {
            use_type_invariant(&*self);
        }
        self.hover_colors.background_color = new_color;
    }

    pub fn set_hover_colors(&mut self, new_colors: TextColors)
        ensures
            final(self)@ == (EditFieldView { hover_colors: new_colors, ..old(self)@ }),
    {
        proof {
            use_type_invariant(&*self);
        }
        self.hover_colors = new_colors;
    }

    pub fn set_active_fill_color(&mut self, new_color: Color)
        ensures
            final(self)@ == (EditFieldView {
                active_colors: TextColors { fill_color: new_color, ..old(self)@.active_colors },
                ..old(self)@
            }),
    {
        proof {
            use_type_invariant(&*self);
        }
        self.active_colors.fill_color = new_color;
    }

    pub fn set_active_stroke_color(&mut self, new_color: Color)
        ensures
            final(self)@ == (EditFieldView {
                active_colors: TextColors { stroke_color: new_color, ..old(self)@.active_colors },
                ..old(self)@
            }),
    {
        proof {
            use_type_invariant(&*self);
        }
        self.active_colors.stroke_color = new_color;
    }

    pub fn set_active_background_color(&mut self, new_color: Color)
        ensures
            final(self)@ == (EditFieldView {
                active_colors: TextColors {
                    background_color: new_color,
                    ..old(self)@.active_colors
                },
                ..old(self)@
            }),
    {
        proof {
            use_type_invariant(&*self);
        }
        self.active_colors.background_color = new_color;
    }

    pub fn set_active_colors(&mut self, new_colors: TextColors)
        ensures
            final(self)@ == (EditFieldView { active_colors: new_colors, ..old(self)@ }),
    {
        proof {
            use_type_invariant(&*self);
        }
        self.active_colors = new_colors;
    }

    /// Sets the fill colour of every palette: as given, darker when hovered,
    /// lighter when active.
    pub fn set_fill_color(&mut self, new_color: Color)
        ensures
            final(self)@ == (EditFieldView {
                base_colors: TextColors { fill_color: new_color, ..old(self)@.base_colors },
                hover_colors: TextColors {
                    fill_color: spec_darken_color(new_color),
                    ..old(self)@.hover_colors
                },
                active_colors: TextColors {
                    fill_color: spec_lighten_color(new_color),
                    ..old(self)@.active_colors
                },
                ..old(self)@
            }),
    {
        proof {
            use_type_invariant(&*self);
        }
        self.base_colors.fill_color = new_color;
        self.hover_colors.fill_color = darken_color(new_color);
        self.active_colors.fill_color = lighten_color(new_color);
    }

    /// Sets the stroke colour of every palette: as given, darker when hovered,
    /// lighter when active.
    pub fn set_stroke_color(&mut self, new_color: Color)
        ensures
            final(self)@ == (EditFieldView {
                base_colors: TextColors { stroke_color: new_color, ..old(self)@.base_colors },
                hover_colors: TextColors {
                    stroke_color: spec_darken_color(new_color),
                    ..old(self)@.hover_colors
                },
                active_colors: TextColors {
                    stroke_color: spec_lighten_color(new_color),
                    ..old(self)@.active_colors
                },
                ..old(self)@
            }),
    {
        proof {
            use_type_invariant(&*self);
        }
        self.base_colors.stroke_color = new_color;
        self.hover_colors.stroke_color = darken_color(new_color);
        self.active_colors.stroke_color = lighten_color(new_color);
    }

    /// Sets the background colour of every palette: as given, darker when hovered,
    /// lighter when active.
    pub fn set_background_color(&mut self, new_color: Color)
        ensures
            final(self)@ == (EditFieldView {
                base_colors: TextColors { background_color: new_color, ..old(self)@.base_colors },
                hover_colors: TextColors {
                    background_color: spec_darken_color(new_color),
                    ..old(self)@.hover_colors
                },
                active_colors: TextColors {
                    background_color: spec_lighten_color(new_color),
                    ..old(self)@.active_colors
                },
                ..old(self)@
            }),
    {
        proof {
            use_type_invariant(&*self);
        }
        self.base_colors.background_color = new_color;
        self.hover_colors.background_color = darken_color(new_color);
        self.active_colors.background_color = lighten_color(new_color);
    }

    /// Sets the base palette and derives the hover and active palettes from it.
    pub fn set_colors(&mut self, new_colors: TextColors)
        ensures
            final(self)@ == (EditFieldView {
                base_colors: new_colors,
                hover_colors: spec_to_hover_colors(new_colors),
                active_colors: spec_to_active_colors(new_colors),
                ..old(self)@
            }),
    {
        proof {
            use_type_invariant(&*self);
        }
        self.base_colors = new_colors;
        self.hover_colors = to_hover_colors(new_colors);
        self.active_colors = to_active_colors(new_colors);
    }

    pub fn get_base_colors(&self) -> (r: TextColors)
        ensures
            r == self@.base_colors,
    {
        self.base_colors
    }

    pub fn get_hover_colors(&self) -> (r: TextColors)
        ensures
            r == self@.hover_colors,
    {
        self.hover_colors
    }

    pub fn get_active_colors(&self) -> (r: TextColors)
        ensures
            r == self@.active_colors,
    {
        self.active_colors
    }

    pub fn is_active(&self) -> (r: bool)
        ensures
            r == self@.active,
    {
        self.active
    }

    pub fn set_active(&mut self, new_active: bool)
        ensures
            final(self)@ == (EditFieldView { active: new_active, ..old(self)@ }),
    {
        proof {
            use_type_invariant(&*self);
        }
        self.active = new_active;
    }

    pub fn is_mouse_over(&self) -> (r: bool)
        ensures
            r == self@.mouse_over,
    {
        self.mouse_over
    }

    /// Chooses whether a click inside an active field leaves the active state
    /// (by default it keeps it).
    pub fn set_toggle_on_inside_click(&mut self, toggle: bool)
        ensures
            final(self)@ == (EditFieldView { toggle_on_inside_click: toggle, ..old(self)@ }),
    {
        proof {
            use_type_invariant(&*self);
        }
        self.toggle_on_inside_click = toggle;
    }

    pub fn get_current_text(&self) -> (r: &str)
        ensures
            r@ == self@.text,
    {
        self.current_text.as_str()
    }

    /// Replaces the text.
    pub fn set_text(&mut self, new_text: &str)
        ensures
            final(self)@ == (EditFieldView { text: new_text@, ..old(self)@ }),
    {
        proof {
            use_type_invariant(&*self);
        }
        self.current_text = new_text.to_owned();
    }

    pub fn get_location(&self) -> (r: AlignedTextLocation)
        ensures
            r == self@.region,
            r.wf(),
    {
        proof {
            use_type_invariant(self);
        }
        self.region
    }

    pub fn get_max_region(&self) -> (r: Region)
        ensures
            r == self@.region.max_region,
            r.wf(),
    {
        proof {
            use_type_invariant(self);
        }
        self.region.max_region
    }

    /// The box the text is drawn into, for text of natural width `natural_width`.
    pub fn get_current_region(&self, natural_width: u32) -> (r: Region)
        ensures
            is_aligned_region(
                r,
                self@.region.max_region,
                self@.region.alignment,
                natural_width as int,
            ),
            self@.region.max_region.contains_region(r),
    {
        proof {
            use_type_invariant(self);
        }
        self.region.get_current_region(natural_width)
    }

    /// The palette the field is drawn with now.
    pub fn visible_colors(&self) -> (r: TextColors)
        ensures
            r == spec_visible_colors(self@),
    {
        if self.active {
            self.active_colors
        } else if self.mouse_over {
            self.hover_colors
        } else {
            self.base_colors
        }
    }

    /// The text cursor while the mouse is over the field.
    pub fn get_cursor(&self) -> (r: Option<Cursor>)
        ensures
            r == (if self@.mouse_over {
                Some(Cursor::Text)
            } else {
                None
            }),
    {
        if self.mouse_over {
            Some(Cursor::Text)
        } else {
            None
        }
    }

    /// One frame: the maximum box is passed down and, where the location asks for it,
    /// cleared with the background; then the text is drawn in its aligned box.
    pub fn render(&self, natural_width: u32) -> (r: RenderPlan)
        ensures
            is_aligned_region(
                r.text_region,
                self@.region.max_region,
                self@.region.alignment,
                natural_width as int,
            ),
            r.colors == spec_visible_colors(self@),
            r.clear_region == (if self@.region.clear_remaining {
                Some(self@.region.max_region)
            } else {
                None
            }),
            r.cursor == (if self@.mouse_over {
                Some(Cursor::Text)
            } else {
                None
            }),
            r.passed_region == Some(self@.region.max_region),
    {
        let max_region = self.get_max_region();
        let text_region = self.get_current_region(natural_width);
        let colors = self.visible_colors();
        let clear_region = if self.region.should_clear_remaining() {
            Some(max_region)
        } else {
            None
        };
        RenderPlan {
            text_region,
            colors,
            clear_region,
            cursor: self.get_cursor(),
            passed_region: Some(max_region),
        }
    }

    /// Follows the mouse to `position` (none when it left the host area). Returns
    /// whether the field must be redrawn: the hover state changed while inactive.
    pub fn mouse_move(&mut self, position: Option<(i32, i32)>) -> (redraw: bool)
        ensures
            final(self)@ == (EditFieldView {
                mouse_over: old(self)@.region.max_region.contains_position_spec(position),
                ..old(self)@
            }),
            redraw == (!old(self)@.active && old(self)@.mouse_over
                != final(self)@.mouse_over),
    {
        proof {
            use_type_invariant(&*self);
        }
        let new_mouse_over = self.region.max_region.contains_position(position);
        let redraw = !self.active && self.mouse_over != new_mouse_over;
        self.mouse_over = new_mouse_over;
        redraw
    }

    /// A click inside the field gives it the focus; when toggling is chosen, a click
    /// inside an active field takes the focus away instead.
    pub fn mouse_click_inside(&mut self)
        ensures
            final(self)@ == (EditFieldView {
                active: if old(self)@.toggle_on_inside_click {
                    !old(self)@.active
                } else {
                    true
                },
                ..old(self)@
            }),
    {
        proof {
            use_type_invariant(&*self);
        }
        if self.toggle_on_inside_click {
            self.active = !self.active;
        } else {
            self.active = true;
        }
    }

    /// A click outside the field takes the focus away.
    pub fn mouse_click_outside(&mut self)
        ensures
            final(self)@ == (EditFieldView { active: false, ..old(self)@ }),
    {
        proof {
            use_type_invariant(&*self);
        }
        self.active = false;
    }

    /// A click at `(x, y)`: inside or outside the field's box. Returns whether it was inside.
    pub fn mouse_click(&mut self, x: i32, y: i32) -> (inside: bool)
        ensures
            inside == old(self)@.region.max_region.spec_contains_point(x as int, y as int),
            final(self)@ == (EditFieldView {
                active: if !inside {
                    false
                } else if old(self)@.toggle_on_inside_click {
                    !old(self)@.active
                } else {
                    true
                },
                ..old(self)@
            }),
    {
        proof {
            use_type_invariant(&*self);
        }
        let inside = self.region.max_region.contains_point(x, y);
        if inside {
            self.mouse_click_inside();
        } else {
            self.mouse_click_outside();
        }
        inside
    }

    /// A key press, `key` being a short text or a key name. An active field takes it
    /// unless the control key is down, and then returns true: its text model must be
    /// rebuilt and the field redrawn.
    pub fn key_down(&mut self, key: &str, control_down: bool) -> (handled: bool)
        ensures
            handled == (old(self)@.active && !control_down),
            !handled ==> final(self)@ == old(self)@,
            handled ==> final(self)@ == match spec_classify_key(
                key@,
                graphemes_of(key@).len() as int,
            ) {
                KeyAction::Insert => EditFieldView { text: old(self)@.text + key@, ..old(self)@ },
                KeyAction::Backspace => EditFieldView {
                    text: without_last_cluster(graphemes_of(old(self)@.text)),
                    ..old(self)@
                },
                KeyAction::Deactivate => EditFieldView { active: false, ..old(self)@ },
                KeyAction::Ignore => old(self)@,
            },
    {
        proof {
            use_type_invariant(&*self);
        }
        if !self.active || control_down {
            return false;
        }
        let clusters = grapheme_count(key);
        match classify_key(key, clusters) {
            KeyAction::Insert => {
                let mut extended = self.current_text.clone();
                extended.append(key);
                self.current_text = extended;
            },
            KeyAction::Backspace => {
                let shortened = remove_last_grapheme(self.current_text.as_str());
                self.current_text = shortened;
            },
            KeyAction::Deactivate => {
                self.active = false;
            },
            KeyAction::Ignore => {},
        }
        true
    }

    /// Copying hands out the text of an active field that has some.
    pub fn on_copy(&self) -> (r: Option<ClipboardData>)
        ensures
            is_export_of(r, self@),
    {
        if self.active && self.current_text.as_str().unicode_len() > 0 {
            Some(ClipboardData::Text(self.current_text.clone()))
        } else {
            None
        }
    }

    /// Cutting hands out the text as copying does, and then empties the field.
    pub fn on_cut(&mut self) -> (r: Option<ClipboardData>)
        ensures
            is_export_of(r, old(self)@),
            final(self)@ == (if exports_text(old(self)@) {
                EditFieldView { text: Seq::empty(), ..old(self)@ }
            } else {
                old(self)@
            }),
    {
        proof {
            use_type_invariant(&*self);
        }
        if self.active && self.current_text.as_str().unicode_len() > 0 {
            let result = Some(ClipboardData::Text(self.current_text.clone()));
            self.current_text = String::new();
            result
        } else {
            None
        }
    }

    /// Pasting appends the payload to the text of an active field, and returns
    /// whether the field took it.
    pub fn on_paste(&mut self, clipboard: &ClipboardData) -> (handled: bool)
        ensures
            handled == old(self)@.active,
            final(self)@ == (if handled {
                EditFieldView { text: old(self)@.text + clipboard.text(), ..old(self)@ }
            } else {
                old(self)@
            }),
    {
        proof {
            use_type_invariant(&*self);
        }
        if !self.active {
            return false;
        }
        match clipboard {
            ClipboardData::Text(text_to_paste) => {
                let mut extended = self.current_text.clone();
                extended.append(text_to_paste.as_str());
                self.current_text = extended;
            },
        }
        true
    }
}

} // verus!
