//! Colors: the terminal's default, the sixteen named ANSI colors, the 256-entry
//! palette and 24-bit RGB.

use vstd::prelude::*;

verus! {

/// One of the sixteen named ANSI colors: eight base colors and their bright
/// counterparts.
#[derive(Debug, Clone, Copy, PartialEq, Eq, Structural, Hash)]
pub enum AnsiColor {
    Black,
    Red,
    Green,
    Yellow,
    Blue,
    Magenta,
    Cyan,
    White,

    BrightBlack,
    BrightRed,
    BrightGreen,
    BrightYellow,
    BrightBlue,
    BrightMagenta,
    BrightCyan,
    BrightWhite,
}

impl AnsiColor {
    /// Whether the color belongs to the bright group.
    pub open spec fn is_bright(self) -> bool {
        match self {
            AnsiColor::Black
            | AnsiColor::Red
            | AnsiColor::Green
            | AnsiColor::Yellow
            | AnsiColor::Blue
            | AnsiColor::Magenta
            | AnsiColor::Cyan
            | AnsiColor::White => false,
            _ => true,
        }
    }

    /// Position of the color within its group of eight: black is 0, white is 7.
    /// It is the last digit of the color's escape code.
    pub open spec fn ordinal(self) -> nat {
        match self {
            AnsiColor::Black | AnsiColor::BrightBlack => 0,
            AnsiColor::Red | AnsiColor::BrightRed => 1,
            AnsiColor::Green | AnsiColor::BrightGreen => 2,
            AnsiColor::Yellow | AnsiColor::BrightYellow => 3,
            AnsiColor::Blue | AnsiColor::BrightBlue => 4,
            AnsiColor::Magenta | AnsiColor::BrightMagenta => 5,
            AnsiColor::Cyan | AnsiColor::BrightCyan => 6,
            AnsiColor::White | AnsiColor::BrightWhite => 7,
        }
    }

    /// Tells the bright colors from the base colors.
    pub fn bright(&self) -> (r: bool)
        ensures
            r == self.is_bright(),
    {
        match self {
            AnsiColor::Black
            | AnsiColor::Red
            | AnsiColor::Green
            | AnsiColor::Yellow
            | AnsiColor::Blue
            | AnsiColor::Magenta
            | AnsiColor::Cyan
            | AnsiColor::White => false,
            _ => true,
        }
    }

    /// The color's position within its group of eight.
    pub fn digit(&self) -> (r: u8)
        ensures
            r == self.ordinal(),
            r < 8,
    {
        match self {
            AnsiColor::Black | AnsiColor::BrightBlack => 0,
            AnsiColor::Red | AnsiColor::BrightRed => 1,
            AnsiColor::Green | AnsiColor::BrightGreen => 2,
            AnsiColor::Yellow | AnsiColor::BrightYellow => 3,
            AnsiColor::Blue | AnsiColor::BrightBlue => 4,
            AnsiColor::Magenta | AnsiColor::BrightMagenta => 5,
            AnsiColor::Cyan | AnsiColor::BrightCyan => 6,
            AnsiColor::White | AnsiColor::BrightWhite => 7,
        }
    }
}

/// A color of the foreground or of the background.
///
/// Exactly one representation is active at a time; every value is valid.
#[derive(Debug, Clone, Copy, PartialEq, Eq, Structural, Hash)]
pub enum Color {
    /// The terminal's default color: nothing is emitted for it.
    Default,
    /// A named ANSI 4-bit color.
    Ansi(AnsiColor),
    /// An entry of the 8-bit palette.
    Ansi256(u8),
    /// A 24-bit color: red, green, blue.
    Rgb(u8, u8, u8),
}

impl Default for Color {
    fn default() -> (r: Self)
        ensures
            r == Color::Default,
    {
        Color::Default
    }
}

impl Color {
    /// An RGB color.
    #[inline]
    pub fn rgb(r: u8, g: u8, b: u8) -> (color: Self)
        ensures
            color == Color::Rgb(r, g, b),
    {
        Color::Rgb(r, g, b)
    }

    /// A named ANSI 4-bit color.
    #[inline]
    pub fn ansi(color: AnsiColor) -> (r: Self)
        ensures
            r == Color::Ansi(color),
    {
        Color::Ansi(color)
    }

    /// An entry of the 8-bit palette.
    #[inline]
    pub fn ansi256(i: u8) -> (r: Self)
        ensures
            r == Color::Ansi256(i),
    {
        Color::Ansi256(i)
    }

    /// The ANSI color black.
    #[inline]
    pub fn black() -> (r: Self)
        ensures
            r == Color::Ansi(AnsiColor::Black),
    {
        Color::Ansi(AnsiColor::Black)
    }

    /// The ANSI color red.
    #[inline]
    pub fn red() -> (r: Self)
        ensures
            r == Color::Ansi(AnsiColor::Red),
    {
        Color::Ansi(AnsiColor::Red)
    }

    /// The ANSI color green.
    #[inline]
    pub fn green() -> (r: Self)
        ensures
            r == Color::Ansi(AnsiColor::Green),
    {
        Color::Ansi(AnsiColor::Green)
    }

    /// The ANSI color yellow.
    #[inline]
    pub fn yellow() -> (r: Self)
        ensures
            r == Color::Ansi(AnsiColor::Yellow),
    {
        Color::Ansi(AnsiColor::Yellow)
    }

    /// The ANSI color blue.
    #[inline]
    pub fn blue() -> (r: Self)
        ensures
            r == Color::Ansi(AnsiColor::Blue),
    {
        Color::Ansi(AnsiColor::Blue)
    }

    /// The ANSI color magenta.
    #[inline]
    pub fn magenta() -> (r: Self)
        ensures
            r == Color::Ansi(AnsiColor::Magenta),
    {
        Color::Ansi(AnsiColor::Magenta)
    }

    /// The ANSI color cyan.
    #[inline]
    pub fn cyan() -> (r: Self)
        ensures
            r == Color::Ansi(AnsiColor::Cyan),
    {
        Color::Ansi(AnsiColor::Cyan)
    }

    /// The ANSI color white.
    #[inline]
    pub fn white() -> (r: Self)
        ensures
            r == Color::Ansi(AnsiColor::White),
    {
        Color::Ansi(AnsiColor::White)
    }

    /// The ANSI color bright black.
    #[inline]
    pub fn bright_black() -> (r: Self)
        ensures
            r == Color::Ansi(AnsiColor::BrightBlack),
    {
        Color::Ansi(AnsiColor::BrightBlack)
    }

    /// The ANSI color bright red.
    #[inline]
    pub fn bright_red() -> (r: Self)
        ensures
            r == Color::Ansi(AnsiColor::BrightRed),
    {
        Color::Ansi(AnsiColor::BrightRed)
    }

    /// The ANSI color bright green.
    #[inline]
    pub fn bright_green() -> (r: Self)
        ensures
            r == Color::Ansi(AnsiColor::BrightGreen),
    {
        Color::Ansi(AnsiColor::BrightGreen)
    }

    /// The ANSI color bright yellow.
    #[inline]
    pub fn bright_yellow() -> (r: Self)
        ensures
            r == Color::Ansi(AnsiColor::BrightYellow),
    {
        Color::Ansi(AnsiColor::BrightYellow)
    }

    /// The ANSI color bright blue.
    #[inline]
    pub fn bright_blue() -> (r: Self)
        ensures
            r == Color::Ansi(AnsiColor::BrightBlue),
    {
        Color::Ansi(AnsiColor::BrightBlue)
    }

    /// The ANSI color bright magenta.
    #[inline]
    pub fn bright_magenta() -> (r: Self)
        ensures
            r == Color::Ansi(AnsiColor::BrightMagenta),
    {
        Color::Ansi(AnsiColor::BrightMagenta)
    }

    /// The ANSI color bright cyan.
    #[inline]
    pub fn bright_cyan() -> (r: Self)
        ensures
            r == Color::Ansi(AnsiColor::BrightCyan),
    {
        Color::Ansi(AnsiColor::BrightCyan)
    }

    /// The ANSI color bright white.
    #[inline]
    pub fn bright_white() -> (r: Self)
        ensures
            r == Color::Ansi(AnsiColor::BrightWhite),
    {
        Color::Ansi(AnsiColor::BrightWhite)
    }
}

} // verus!
