use vstd::prelude::*;

verus! {

/// A colour with red, green, blue and alpha channels of one byte each.
#[derive(Clone, Copy, Debug, PartialEq, Eq, Structural)]
pub struct Color {
    pub red: u8,
    pub green: u8,
    pub blue: u8,
    pub alpha: u8,
}

impl Color {
    pub fn from_rgba(red: u8, green: u8, blue: u8, alpha: u8) -> (r: Color)
        ensures
            r == (Color { red, green, blue, alpha }),
    {
        Color { red, green, blue, alpha }
    }
}

/// The three colours that text is drawn with.
#[derive(Clone, Copy, Debug, PartialEq, Eq, Structural)]
pub struct TextColors {
    pub fill_color: Color,
    pub stroke_color: Color,
    pub background_color: Color,
}

impl TextColors {
    pub fn new(fill_color: Color, stroke_color: Color, background_color: Color) -> (r: TextColors)
        ensures
            r == (TextColors { fill_color, stroke_color, background_color }),
    {
        TextColors { fill_color, stroke_color, background_color }
    }
}

} // verus!
