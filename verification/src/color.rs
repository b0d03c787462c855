use vstd::prelude::*;

verus! {

/// An RGB color. The core never interprets colors; it only picks them
/// and hands them to the renderer as plain data.
#[derive(Clone, Copy, Debug, PartialEq, Eq, Structural)]
pub struct Color {
    pub r: u8,
    pub g: u8,
    pub b: u8,
}

impl Color {
    pub fn white() -> (c: Color)
        ensures
            c == (Color { r: 255, g: 255, b: 255 }),
    {
        Color { r: 255, g: 255, b: 255 }
    }

    pub fn red() -> (c: Color)
        ensures
            c == (Color { r: 255, g: 0, b: 0 }),
    {
        Color { r: 255, g: 0, b: 0 }
    }

    pub fn dark_red() -> (c: Color)
        ensures
            c == (Color { r: 191, g: 0, b: 0 }),
    {
        Color { r: 191, g: 0, b: 0 }
    }

    pub fn orange() -> (c: Color)
        ensures
            c == (Color { r: 255, g: 127, b: 0 }),
    {
        Color { r: 255, g: 127, b: 0 }
    }

    pub fn desaturated_green() -> (c: Color)
        ensures
            c == (Color { r: 63, g: 127, b: 63 }),
    {
        Color { r: 63, g: 127, b: 63 }
    }

    pub fn darker_green() -> (c: Color)
        ensures
            c == (Color { r: 0, g: 127, b: 0 }),
    {
        Color { r: 0, g: 127, b: 0 }
    }
}

} // verus!
