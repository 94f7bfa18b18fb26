use vstd::prelude::*;

verus! {

/// Rows of the text-mode screen.
pub const BUFF_HEIGHT: usize = 25;

/// Columns of the text-mode screen.
pub const BUFF_WIDTH: usize = 80;

/// The sixteen colours of the text-mode palette.
#[derive(Clone, Copy, PartialEq, Eq, Structural, Debug)]
pub enum Color {
    Black,
    Blue,
    Green,
    Cyan,
    Red,
    Magenta,
    Brown,
    LightGrey,
    DarkGrey,
    LightBlue,
    Lightgreen,
    LightCyan,
    LightRed,
    LightMagenta,
    LightBrown,
    White,
}

/// The palette index of a colour, 0 through 15.
pub open spec fn color_code(c: Color) -> u8 {
    match c {
        Color::Black => 0,
        Color::Blue => 1,
        Color::Green => 2,
        Color::Cyan => 3,
        Color::Red => 4,
        Color::Magenta => 5,
        Color::Brown => 6,
        Color::LightGrey => 7,
        Color::DarkGrey => 8,
        Color::LightBlue => 9,
        Color::Lightgreen => 10,
        Color::LightCyan => 11,
        Color::LightRed => 12,
        Color::LightMagenta => 13,
        Color::LightBrown => 14,
        Color::White => 15,
    }
}

impl Color {
    /// The palette index of this colour.
    pub fn code(&self) -> (r: u8)
        ensures
            r == color_code(*self),
            r < 16,
    {
        match self {
            Color::Black => 0,
            Color::Blue => 1,
            Color::Green => 2,
            Color::Cyan => 3,
            Color::Red => 4,
            Color::Magenta => 5,
            Color::Brown => 6,
            Color::LightGrey => 7,
            Color::DarkGrey => 8,
            Color::LightBlue => 9,
            Color::Lightgreen => 10,
            Color::LightCyan => 11,
            Color::LightRed => 12,
            Color::LightMagenta => 13,
            Color::LightBrown => 14,
            Color::White => 15,
        }
    }
}

/// One character cell of the text-mode buffer: a byte of text and a colour
/// byte holding the background in its high nibble and the foreground in
/// its low nibble.
#[derive(Clone, Copy, PartialEq, Eq, Structural, Debug)]
pub struct VGACell {
    pub character: u8,
    pub color: u8,
}

impl VGACell {
    /// A cell showing `character` in `fg_color` on `bg_color`.
    pub fn new(character: u8, fg_color: Color, bg_color: Color) -> (c: VGACell)
        ensures
            c.character == character,
            c.color == 16 * color_code(bg_color) + color_code(fg_color),
    {
        let bg = bg_color.code();
        let fg = fg_color.code();
        VGACell { character, color: 16 * bg + fg }
    }
}

} // verus!
