//! Styles: a foreground color, a background color and a set of attributes.

use vstd::prelude::*;

use crate::attributes::Attributes;
use crate::color::{AnsiColor, Color};

verus! {

/// A style that can be applied to a value.
///
/// A style is a plain value. Each builder method returns a changed copy:
/// setting a color replaces the color that was there, setting attributes adds
/// them to those already set.
#[derive(Debug, Clone, Copy, PartialEq, Eq, Structural, Hash)]
pub struct Style {
    /// The foreground color.
    pub fg: Color,
    /// The background color.
    pub bg: Color,
    /// The attributes.
    pub attributes: Attributes,
}

impl Default for Style {
    fn default() -> (r: Self)
        ensures
            r == Style::identity(),
    {
        Style::new()
    }
}

impl Style {
    /// The style with both colors default and no attribute.
    pub open spec fn identity() -> Style {
        Style { fg: Color::Default, bg: Color::Default, attributes: Attributes(0) }
    }

    /// This style with the foreground color replaced.
    pub open spec fn with_fg(self, color: Color) -> Style {
        Style { fg: color, ..self }
    }

    /// This style with the background color replaced.
    pub open spec fn with_bg(self, color: Color) -> Style {
        Style { bg: color, ..self }
    }

    /// This style with the given attributes added.
    pub open spec fn with_attributes(self, attributes: Attributes) -> Style {
        Style { attributes: self.attributes.or(attributes), ..self }
    }

    /// The identity style: both colors default, no attribute.
    #[inline]
    pub fn new() -> (r: Self)
        ensures
            r == Style::identity(),
    {
        Style { fg: Color::Default, bg: Color::Default, attributes: Attributes::EMPTY() }
    }

    /// Whether this is the identity style.
    #[inline]
    pub fn is_default(&self) -> (r: bool)
        ensures
            r == (*self == Style::identity()),
    {
        matches!(self.fg, Color::Default) && matches!(self.bg, Color::Default)
            && self.attributes.is_empty()
    }

    /// Set the foreground color.
    #[inline]
    pub fn fg(self, color: Color) -> (res: Self)
        ensures
            res == self.with_fg(color),
    {
        let mut res = self;
        res.fg = color;
        res
    }

    /// Set the background color.
    #[inline]
    pub fn bg(self, color: Color) -> (res: Self)
        ensures
            res == self.with_bg(color),
    {
        let mut res = self;
        res.bg = color;
        res
    }

    /// Set the foreground color to an RGB color.
    #[inline]
    pub fn color_rgb(self, r: u8, g: u8, b: u8) -> (res: Self)
        ensures
            res == self.with_fg(Color::Rgb(r, g, b)),
    {
        let mut res = self;
        res.fg = Color::Rgb(r, g, b);
        res
    }

    /// Set the foreground color to an ANSI 4-bit color.
    #[inline]
    pub fn color_ansi(self, color: AnsiColor) -> (res: Self)
        ensures
            res == self.with_fg(Color::Ansi(color)),
    {
        let mut res = self;
        res.fg = Color::Ansi(color);
        res
    }

    /// Set the foreground color to an ANSI 8-bit color.
    #[inline]
    pub fn color_ansi256(self, i: u8) -> (res: Self)
        ensures
            res == self.with_fg(Color::Ansi256(i)),
    {
        let mut res = self;
        res.fg = Color::Ansi256(i);
        res
    }

    /// Set the background color to an RGB color.
    #[inline]
    pub fn on_color_rgb(self, r: u8, g: u8, b: u8) -> (res: Self)
        ensures
            res == self.with_bg(Color::Rgb(r, g, b)),
    {
        let mut res = self;
        res.bg = Color::Rgb(r, g, b);
        res
    }

    /// Set the background color to an ANSI 4-bit color.
    #[inline]
    pub fn on_color_ansi(self, color: AnsiColor) -> (res: Self)
        ensures
            res == self.with_bg(Color::Ansi(color)),
    {
        let mut res = self;
        res.bg = Color::Ansi(color);
        res
    }

    /// Set the background color to an ANSI 8-bit color.
    #[inline]
    pub fn on_color_ansi256(self, i: u8) -> (res: Self)
        ensures
            res == self.with_bg(Color::Ansi256(i)),
    {
        let mut res = self;
        res.bg = Color::Ansi256(i);
        res
    }

    /// Set the foreground color to black.
    #[inline]
    pub fn black(self) -> (res: Self)
        ensures
            res == self.with_fg(Color::Ansi(AnsiColor::Black)),
    {
        let mut res = self;
        res.fg = Color::Ansi(AnsiColor::Black);
        res
    }

    /// Set the foreground color to red.
    #[inline]
    pub fn red(self) -> (res: Self)
        ensures
            res == self.with_fg(Color::Ansi(AnsiColor::Red)),
    {
        let mut res = self;
        res.fg = Color::Ansi(AnsiColor::Red);
        res
    }

    /// Set the foreground color to green.
    #[inline]
    pub fn green(self) -> (res: Self)
        ensures
            res == self.with_fg(Color::Ansi(AnsiColor::Green)),
    {
        let mut res = self;
        res.fg = Color::Ansi(AnsiColor::Green);
        res
    }

    /// Set the foreground color to yellow.
    #[inline]
    pub fn yellow(self) -> (res: Self)
        ensures
            res == self.with_fg(Color::Ansi(AnsiColor::Yellow)),
    {
        let mut res = self;
        res.fg = Color::Ansi(AnsiColor::Yellow);
        res
    }

    /// Set the foreground color to blue.
    #[inline]
    pub fn blue(self) -> (res: Self)
        ensures
            res == self.with_fg(Color::Ansi(AnsiColor::Blue)),
    {
        let mut res = self;
        res.fg = Color::Ansi(AnsiColor::Blue);
        res
    }

    /// Set the foreground color to magenta.
    #[inline]
    pub fn magenta(self) -> (res: Self)
        ensures
            res == self.with_fg(Color::Ansi(AnsiColor::Magenta)),
    {
        let mut res = self;
        res.fg = Color::Ansi(AnsiColor::Magenta);
        res
    }

    /// Set the foreground color to cyan.
    #[inline]
    pub fn cyan(self) -> (res: Self)
        ensures
            res == self.with_fg(Color::Ansi(AnsiColor::Cyan)),
    {
        let mut res = self;
        res.fg = Color::Ansi(AnsiColor::Cyan);
        res
    }

    /// Set the foreground color to white.
    #[inline]
    pub fn white(self) -> (res: Self)
        ensures
            res == self.with_fg(Color::Ansi(AnsiColor::White)),
    {
        let mut res = self;
        res.fg = Color::Ansi(AnsiColor::White);
        res
    }

    /// Set the foreground color to bright black.
    #[inline]
    pub fn bright_black(self) -> (res: Self)
        ensures
            res == self.with_fg(Color::Ansi(AnsiColor::BrightBlack)),
    {
        let mut res = self;
        res.fg = Color::Ansi(AnsiColor::BrightBlack);
        res
    }

    /// Set the foreground color to bright red.
    #[inline]
    pub fn bright_red(self) -> (res: Self)
        ensures
            res == self.with_fg(Color::Ansi(AnsiColor::BrightRed)),
    {
        let mut res = self;
        res.fg = Color::Ansi(AnsiColor::BrightRed);
        res
    }

    /// Set the foreground color to bright green.
    #[inline]
    pub fn bright_green(self) -> (res: Self)
        ensures
            res == self.with_fg(Color::Ansi(AnsiColor::BrightGreen)),
    {
        let mut res = self;
        res.fg = Color::Ansi(AnsiColor::BrightGreen);
        res
    }

    /// Set the foreground color to bright yellow.
    #[inline]
    pub fn bright_yellow(self) -> (res: Self)
        ensures
            res == self.with_fg(Color::Ansi(AnsiColor::BrightYellow)),
    {
        let mut res = self;
        res.fg = Color::Ansi(AnsiColor::BrightYellow);
        res
    }

    /// Set the foreground color to bright blue.
    #[inline]
    pub fn bright_blue(self) -> (res: Self)
        ensures
            res == self.with_fg(Color::Ansi(AnsiColor::BrightBlue)),
    {
        let mut res = self;
        res.fg = Color::Ansi(AnsiColor::BrightBlue);
        res
    }

    /// Set the foreground color to bright magenta.
    #[inline]
    pub fn bright_magenta(self) -> (res: Self)
        ensures
            res == self.with_fg(Color::Ansi(AnsiColor::BrightMagenta)),
    {
        let mut res = self;
        res.fg = Color::Ansi(AnsiColor::BrightMagenta);
        res
    }

    /// Set the foreground color to bright cyan.
    #[inline]
    pub fn bright_cyan(self) -> (res: Self)
        ensures
            res == self.with_fg(Color::Ansi(AnsiColor::BrightCyan)),
    {
        let mut res = self;
        res.fg = Color::Ansi(AnsiColor::BrightCyan);
        res
    }

    /// Set the foreground color to bright white.
    #[inline]
    pub fn bright_white(self) -> (res: Self)
        ensures
            res == self.with_fg(Color::Ansi(AnsiColor::BrightWhite)),
    {
        let mut res = self;
        res.fg = Color::Ansi(AnsiColor::BrightWhite);
        res
    }

    /// Set the background color to black.
    #[inline]
    pub fn on_black(self) -> (res: Self)
        ensures
            res == self.with_bg(Color::Ansi(AnsiColor::Black)),
    {
        let mut res = self;
        res.bg = Color::Ansi(AnsiColor::Black);
        res
    }

    /// Set the background color to red.
    #[inline]
    pub fn on_red(self) -> (res: Self)
        ensures
            res == self.with_bg(Color::Ansi(AnsiColor::Red)),
    {
        let mut res = self;
        res.bg = Color::Ansi(AnsiColor::Red);
        res
    }

    /// Set the background color to green.
    #[inline]
    pub fn on_green(self) -> (res: Self)
        ensures
            res == self.with_bg(Color::Ansi(AnsiColor::Green)),
    {
        let mut res = self;
        res.bg = Color::Ansi(AnsiColor::Green);
        res
    }

    /// Set the background color to yellow.
    #[inline]
    pub fn on_yellow(self) -> (res: Self)
        ensures
            res == self.with_bg(Color::Ansi(AnsiColor::Yellow)),
    {
        let mut res = self;
        res.bg = Color::Ansi(AnsiColor::Yellow);
        res
    }

    /// Set the background color to blue.
    #[inline]
    pub fn on_blue(self) -> (res: Self)
        ensures
            res == self.with_bg(Color::Ansi(AnsiColor::Blue)),
    {
        let mut res = self;
        res.bg = Color::Ansi(AnsiColor::Blue);
        res
    }

    /// Set the background color to magenta.
    #[inline]
    pub fn on_magenta(self) -> (res: Self)
        ensures
            res == self.with_bg(Color::Ansi(AnsiColor::Magenta)),
    {
        let mut res = self;
        res.bg = Color::Ansi(AnsiColor::Magenta);
        res
    }

    /// Set the background color to cyan.
    #[inline]
    pub fn on_cyan(self) -> (res: Self)
        ensures
            res == self.with_bg(Color::Ansi(AnsiColor::Cyan)),
    {
        let mut res = self;
        res.bg = Color::Ansi(AnsiColor::Cyan);
        res
    }

    /// Set the background color to white.
    #[inline]
    pub fn on_white(self) -> (res: Self)
        ensures
            res == self.with_bg(Color::Ansi(AnsiColor::White)),
    {
        let mut res = self;
        res.bg = Color::Ansi(AnsiColor::White);
        res
    }

    /// Set the background color to bright black.
    #[inline]
    pub fn on_bright_black(self) -> (res: Self)
        ensures
            res == self.with_bg(Color::Ansi(AnsiColor::BrightBlack)),
    {
        let mut res = self;
        res.bg = Color::Ansi(AnsiColor::BrightBlack);
        res
    }

    /// Set the background color to bright red.
    #[inline]
    pub fn on_bright_red(self) -> (res: Self)
        ensures
            res == self.with_bg(Color::Ansi(AnsiColor::BrightRed)),
    {
        let mut res = self;
        res.bg = Color::Ansi(AnsiColor::BrightRed);
        res
    }

    /// Set the background color to bright green.
    #[inline]
    pub fn on_bright_green(self) -> (res: Self)
        ensures
            res == self.with_bg(Color::Ansi(AnsiColor::BrightGreen)),
    {
        let mut res = self;
        res.bg = Color::Ansi(AnsiColor::BrightGreen);
        res
    }

    /// Set the background color to bright yellow.
    #[inline]
    pub fn on_bright_yellow(self) -> (res: Self)
        ensures
            res == self.with_bg(Color::Ansi(AnsiColor::BrightYellow)),
    {
        let mut res = self;
        res.bg = Color::Ansi(AnsiColor::BrightYellow);
        res
    }

    /// Set the background color to bright blue.
    #[inline]
    pub fn on_bright_blue(self) -> (res: Self)
        ensures
            res == self.with_bg(Color::Ansi(AnsiColor::BrightBlue)),
    {
        let mut res = self;
        res.bg = Color::Ansi(AnsiColor::BrightBlue);
        res
    }

    /// Set the background color to bright magenta.
    #[inline]
    pub fn on_bright_magenta(self) -> (res: Self)
        ensures
            res == self.with_bg(Color::Ansi(AnsiColor::BrightMagenta)),
    {
        let mut res = self;
        res.bg = Color::Ansi(AnsiColor::BrightMagenta);
        res
    }

    /// Set the background color to bright cyan.
    #[inline]
    pub fn on_bright_cyan(self) -> (res: Self)
        ensures
            res == self.with_bg(Color::Ansi(AnsiColor::BrightCyan)),
    {
        let mut res = self;
        res.bg = Color::Ansi(AnsiColor::BrightCyan);
        res
    }

    /// Set the background color to bright white.
    #[inline]
    pub fn on_bright_white(self) -> (res: Self)
        ensures
            res == self.with_bg(Color::Ansi(AnsiColor::BrightWhite)),
    {
        let mut res = self;
        res.bg = Color::Ansi(AnsiColor::BrightWhite);
        res
    }

    /// Add the given attributes to those already set. See [`Attributes`].
    #[inline]
    pub fn attributes(self, attributes: Attributes) -> (res: Self)
        ensures
            res == self.with_attributes(attributes),
    {
        let mut res = self;
        res.attributes = res.attributes.or(attributes);
        res
    }

    /// Set the bold attribute.
    #[inline]
    pub fn bold(self) -> (res: Self)
        ensures
            res == self.with_attributes(Attributes(Attributes::BOLD_BIT)),
    {
        self.attributes(Attributes::BOLD())
    }

    /// Set the dim attribute.
    #[inline]
    pub fn dim(self) -> (res: Self)
        ensures
            res == self.with_attributes(Attributes(Attributes::DIM_BIT)),
    {
        self.attributes(Attributes::DIM())
    }

    /// Set the italic attribute.
    #[inline]
    pub fn italic(self) -> (res: Self)
        ensures
            res == self.with_attributes(Attributes(Attributes::ITALIC_BIT)),
    {
        self.attributes(Attributes::ITALIC())
    }

    /// Set the underlined attribute.
    #[inline]
    pub fn underlined(self) -> (res: Self)
        ensures
            res == self.with_attributes(Attributes(Attributes::UNDERLINED_BIT)),
    {
        self.attributes(Attributes::UNDERLINED())
    }

    /// Set the blinking attribute.
    ///
    /// Not supported by many terminals.
    #[inline]
    pub fn blinking(self) -> (res: Self)
        ensures
            res == self.with_attributes(Attributes(Attributes::BLINKING_BIT)),
    {
        self.attributes(Attributes::BLINKING())
    }

    /// Set the inverted attribute.
    ///
    /// Inverts the foreground and background colors.
    #[inline]
    pub fn inverted(self) -> (res: Self)
        ensures
            res == self.with_attributes(Attributes(Attributes::INVERTED_BIT)),
    {
        self.attributes(Attributes::INVERTED())
    }

    /// Set the hidden attribute.
    ///
    /// Makes the text invisible.
    #[inline]
    pub fn hidden(self) -> (res: Self)
        ensures
            res == self.with_attributes(Attributes(Attributes::HIDDEN_BIT)),
    {
        self.attributes(Attributes::HIDDEN())
    }

    /// Set the crossed attribute.
    ///
    /// Makes the text struck through.
    #[inline]
    pub fn crossed(self) -> (res: Self)
        ensures
            res == self.with_attributes(Attributes(Attributes::CROSSED_BIT)),
    {
        self.attributes(Attributes::CROSSED())
    }

    /// Of two foreground colors set one after the other, only the second stays;
    /// the same holds of the background. Neither touches anything else.
    pub proof fn lemma_color_overwrites(self, first: Color, second: Color)
        ensures
            self.with_fg(first).with_fg(second) == self.with_fg(second),
            self.with_fg(second).fg == second,
            self.with_bg(first).with_bg(second) == self.with_bg(second),
            self.with_bg(second).bg == second,
            self.with_fg(second).bg == self.bg,
            self.with_fg(second).attributes == self.attributes,
            self.with_bg(second).fg == self.fg,
            self.with_bg(second).attributes == self.attributes,
    {
    }

    /// Of two sets of attributes added one after the other, both stay, together
    /// with the attributes that were set before; the order does not matter.
    pub proof fn lemma_attributes_accumulate(self, first: Attributes, second: Attributes)
        ensures
            self.with_attributes(first).with_attributes(second).attributes.contains(first),
            self.with_attributes(first).with_attributes(second).attributes.contains(second),
            self.with_attributes(first).with_attributes(second).attributes.contains(
                self.attributes,
            ),
            self.with_attributes(first).with_attributes(second)
                == self.with_attributes(second).with_attributes(first),
            self.with_attributes(first).with_attributes(first) == self.with_attributes(first),
    {
        let s = self.attributes.0;
        let a = first.0;
        let b = second.0;
        assert(((s | a) | b) & a == a) by (bit_vector);
        assert(((s | a) | b) & b == b) by (bit_vector);
        assert(((s | a) | b) & s == s) by (bit_vector);
        assert((s | a) | b == (s | b) | a) by (bit_vector);
        assert((s | a) | a == s | a) by (bit_vector);
    }
}

} // verus!
