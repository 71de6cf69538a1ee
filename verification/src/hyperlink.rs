//! Styled hyperlinks.

use vstd::prelude::*;

use crate::attributes::Attributes;
use crate::color::{AnsiColor, Color};
use crate::style::Style;

verus! {

/// A styled value that links to a URI.
///
/// The builder methods are those of [`Style`], applied to the style; the URI
/// and the content stay as they are.
#[derive(Debug, Clone, Copy, PartialEq, Eq, Hash)]
pub struct Hyperlink<U, T> {
    /// Where the link leads.
    pub uri: U,
    /// What is shown.
    pub content: T,
    /// The style it is shown in.
    pub style: Style,
}

/// The default URI and content in the identity style.
impl<U: Default, T: Default> Default for Hyperlink<U, T> {
    fn default() -> (r: Self)
        ensures
            r.style == Style::identity(),
            call_ensures(U::default, (), r.uri),
            call_ensures(T::default, (), r.content),
    {
        Hyperlink { uri: U::default(), content: T::default(), style: Style::new() }
    }
}

impl<U, T> Hyperlink<U, T> {
    /// This hyperlink with the foreground color replaced.
    pub open spec fn with_fg(self, color: Color) -> Self {
        Hyperlink { style: self.style.with_fg(color), ..self }
    }

    /// This hyperlink with the background color replaced.
    pub open spec fn with_bg(self, color: Color) -> Self {
        Hyperlink { style: self.style.with_bg(color), ..self }
    }

    /// This hyperlink with the given attributes added.
    pub open spec fn with_attributes(self, attributes: Attributes) -> Self {
        Hyperlink { style: self.style.with_attributes(attributes), ..self }
    }

    /// A hyperlink to `uri` that shows `content` in the identity style.
    #[inline]
    pub fn new(uri: U, content: T) -> (r: Self)
        ensures
            r == (Hyperlink { uri, content, style: Style::identity() }),
    {
        Hyperlink { uri, content, style: Style::new() }
    }

    /// Set the foreground color.
    #[inline]
    pub fn fg(self, color: Color) -> (res: Self)
        ensures
            res == self.with_fg(color),
    {
        let mut res = self;
        res.style.fg = color;
        res
    }

    /// Set the background color.
    #[inline]
    pub fn bg(self, color: Color) -> (res: Self)
        ensures
            res == self.with_bg(color),
    {
        let mut res = self;
        res.style.bg = color;
        res
    }

    /// Set the foreground color to an RGB color.
    #[inline]
    pub fn color_rgb(self, r: u8, g: u8, b: u8) -> (res: Self)
        ensures
            res == self.with_fg(Color::Rgb(r, g, b)),
    {
        let mut res = self;
        res.style.fg = Color::Rgb(r, g, b);
        res
    }

    /// Set the foreground color to an ANSI 4-bit color.
    #[inline]
    pub fn color_ansi(self, color: AnsiColor) -> (res: Self)
        ensures
            res == self.with_fg(Color::Ansi(color)),
    {
        let mut res = self;
        res.style.fg = Color::Ansi(color);
        res
    }

    /// Set the foreground color to an ANSI 8-bit color.
    #[inline]
    pub fn color_ansi256(self, i: u8) -> (res: Self)
        ensures
            res == self.with_fg(Color::Ansi256(i)),
    {
        let mut res = self;
        res.style.fg = Color::Ansi256(i);
        res
    }

    /// Set the background color to an RGB color.
    #[inline]
    pub fn on_color_rgb(self, r: u8, g: u8, b: u8) -> (res: Self)
        ensures
            res == self.with_bg(Color::Rgb(r, g, b)),
    {
        let mut res = self;
        res.style.bg = Color::Rgb(r, g, b);
        res
    }

    /// Set the background color to an ANSI 4-bit color.
    #[inline]
    pub fn on_color_ansi(self, color: AnsiColor) -> (res: Self)
        ensures
            res == self.with_bg(Color::Ansi(color)),
    {
        let mut res = self;
        res.style.bg = Color::Ansi(color);
        res
    }

    /// Set the background color to an ANSI 8-bit color.
    #[inline]
    pub fn on_color_ansi256(self, i: u8) -> (res: Self)
        ensures
            res == self.with_bg(Color::Ansi256(i)),
    {
        let mut res = self;
        res.style.bg = Color::Ansi256(i);
        res
    }

    /// Set the foreground color to black.
    #[inline]
    pub fn black(self) -> (res: Self)
        ensures
            res == self.with_fg(Color::Ansi(AnsiColor::Black)),
    {
        let mut res = self;
        res.style.fg = Color::Ansi(AnsiColor::Black);
        res
    }

    /// Set the foreground color to red.
    #[inline]
    pub fn red(self) -> (res: Self)
        ensures
            res == self.with_fg(Color::Ansi(AnsiColor::Red)),
    {
        let mut res = self;
        res.style.fg = Color::Ansi(AnsiColor::Red);
        res
    }

    /// Set the foreground color to green.
    #[inline]
    pub fn green(self) -> (res: Self)
        ensures
            res == self.with_fg(Color::Ansi(AnsiColor::Green)),
    {
        let mut res = self;
        res.style.fg = Color::Ansi(AnsiColor::Green);
        res
    }

    /// Set the foreground color to yellow.
    #[inline]
    pub fn yellow(self) -> (res: Self)
        ensures
            res == self.with_fg(Color::Ansi(AnsiColor::Yellow)),
    {
        let mut res = self;
        res.style.fg = Color::Ansi(AnsiColor::Yellow);
        res
    }

    /// Set the foreground color to blue.
    #[inline]
    pub fn blue(self) -> (res: Self)
        ensures
            res == self.with_fg(Color::Ansi(AnsiColor::Blue)),
    {
        let mut res = self;
        res.style.fg = Color::Ansi(AnsiColor::Blue);
        res
    }

    /// Set the foreground color to magenta.
    #[inline]
    pub fn magenta(self) -> (res: Self)
        ensures
            res == self.with_fg(Color::Ansi(AnsiColor::Magenta)),
    {
        let mut res = self;
        res.style.fg = Color::Ansi(AnsiColor::Magenta);
        res
    }

    /// Set the foreground color to cyan.
    #[inline]
    pub fn cyan(self) -> (res: Self)
        ensures
            res == self.with_fg(Color::Ansi(AnsiColor::Cyan)),
    {
        let mut res = self;
        res.style.fg = Color::Ansi(AnsiColor::Cyan);
        res
    }

    /// Set the foreground color to white.
    #[inline]
    pub fn white(self) -> (res: Self)
        ensures
            res == self.with_fg(Color::Ansi(AnsiColor::White)),
    {
        let mut res = self;
        res.style.fg = Color::Ansi(AnsiColor::White);
        res
    }

    /// Set the foreground color to bright black.
    #[inline]
    pub fn bright_black(self) -> (res: Self)
        ensures
            res == self.with_fg(Color::Ansi(AnsiColor::BrightBlack)),
    {
        let mut res = self;
        res.style.fg = Color::Ansi(AnsiColor::BrightBlack);
        res
    }

    /// Set the foreground color to bright red.
    #[inline]
    pub fn bright_red(self) -> (res: Self)
        ensures
            res == self.with_fg(Color::Ansi(AnsiColor::BrightRed)),
    {
        let mut res = self;
        res.style.fg = Color::Ansi(AnsiColor::BrightRed);
        res
    }

    /// Set the foreground color to bright green.
    #[inline]
    pub fn bright_green(self) -> (res: Self)
        ensures
            res == self.with_fg(Color::Ansi(AnsiColor::BrightGreen)),
    {
        let mut res = self;
        res.style.fg = Color::Ansi(AnsiColor::BrightGreen);
        res
    }

    /// Set the foreground color to bright yellow.
    #[inline]
    pub fn bright_yellow(self) -> (res: Self)
        ensures
            res == self.with_fg(Color::Ansi(AnsiColor::BrightYellow)),
    {
        let mut res = self;
        res.style.fg = Color::Ansi(AnsiColor::BrightYellow);
        res
    }

    /// Set the foreground color to bright blue.
    #[inline]
    pub fn bright_blue(self) -> (res: Self)
        ensures
            res == self.with_fg(Color::Ansi(AnsiColor::BrightBlue)),
    {
        let mut res = self;
        res.style.fg = Color::Ansi(AnsiColor::BrightBlue);
        res
    }

    /// Set the foreground color to bright magenta.
    #[inline]
    pub fn bright_magenta(self) -> (res: Self)
        ensures
            res == self.with_fg(Color::Ansi(AnsiColor::BrightMagenta)),
    {
        let mut res = self;
        res.style.fg = Color::Ansi(AnsiColor::BrightMagenta);
        res
    }

    /// Set the foreground color to bright cyan.
    #[inline]
    pub fn bright_cyan(self) -> (res: Self)
        ensures
            res == self.with_fg(Color::Ansi(AnsiColor::BrightCyan)),
    {
        let mut res = self;
        res.style.fg = Color::Ansi(AnsiColor::BrightCyan);
        res
    }

    /// Set the foreground color to bright white.
    #[inline]
    pub fn bright_white(self) -> (res: Self)
        ensures
            res == self.with_fg(Color::Ansi(AnsiColor::BrightWhite)),
    {
        let mut res = self;
        res.style.fg = Color::Ansi(AnsiColor::BrightWhite);
        res
    }

    /// Set the background color to black.
    #[inline]
    pub fn on_black(self) -> (res: Self)
        ensures
            res == self.with_bg(Color::Ansi(AnsiColor::Black)),
    {
        let mut res = self;
        res.style.bg = Color::Ansi(AnsiColor::Black);
        res
    }

    /// Set the background color to red.
    #[inline]
    pub fn on_red(self) -> (res: Self)
        ensures
            res == self.with_bg(Color::Ansi(AnsiColor::Red)),
    {
        let mut res = self;
        res.style.bg = Color::Ansi(AnsiColor::Red);
        res
    }

    /// Set the background color to green.
    #[inline]
    pub fn on_green(self) -> (res: Self)
        ensures
            res == self.with_bg(Color::Ansi(AnsiColor::Green)),
    {
        let mut res = self;
        res.style.bg = Color::Ansi(AnsiColor::Green);
        res
    }

    /// Set the background color to yellow.
    #[inline]
    pub fn on_yellow(self) -> (res: Self)
        ensures
            res == self.with_bg(Color::Ansi(AnsiColor::Yellow)),
    {
        let mut res = self;
        res.style.bg = Color::Ansi(AnsiColor::Yellow);
        res
    }

    /// Set the background color to blue.
    #[inline]
    pub fn on_blue(self) -> (res: Self)
        ensures
            res == self.with_bg(Color::Ansi(AnsiColor::Blue)),
    {
        let mut res = self;
        res.style.bg = Color::Ansi(AnsiColor::Blue);
        res
    }

    /// Set the background color to magenta.
    #[inline]
    pub fn on_magenta(self) -> (res: Self)
        ensures
            res == self.with_bg(Color::Ansi(AnsiColor::Magenta)),
    {
        let mut res = self;
        res.style.bg = Color::Ansi(AnsiColor::Magenta);
        res
    }

    /// Set the background color to cyan.
    #[inline]
    pub fn on_cyan(self) -> (res: Self)
        ensures
            res == self.with_bg(Color::Ansi(AnsiColor::Cyan)),
    {
        let mut res = self;
        res.style.bg = Color::Ansi(AnsiColor::Cyan);
        res
    }

    /// Set the background color to white.
    #[inline]
    pub fn on_white(self) -> (res: Self)
        ensures
            res == self.with_bg(Color::Ansi(AnsiColor::White)),
    {
        let mut res = self;
        res.style.bg = Color::Ansi(AnsiColor::White);
        res
    }

    /// Set the background color to bright black.
    #[inline]
    pub fn on_bright_black(self) -> (res: Self)
        ensures
            res == self.with_bg(Color::Ansi(AnsiColor::BrightBlack)),
    {
        let mut res = self;
        res.style.bg = Color::Ansi(AnsiColor::BrightBlack);
        res
    }

    /// Set the background color to bright red.
    #[inline]
    pub fn on_bright_red(self) -> (res: Self)
        ensures
            res == self.with_bg(Color::Ansi(AnsiColor::BrightRed)),
    {
        let mut res = self;
        res.style.bg = Color::Ansi(AnsiColor::BrightRed);
        res
    }

    /// Set the background color to bright green.
    #[inline]
    pub fn on_bright_green(self) -> (res: Self)
        ensures
            res == self.with_bg(Color::Ansi(AnsiColor::BrightGreen)),
    {
        let mut res = self;
        res.style.bg = Color::Ansi(AnsiColor::BrightGreen);
        res
    }

    /// Set the background color to bright yellow.
    #[inline]
    pub fn on_bright_yellow(self) -> (res: Self)
        ensures
            res == self.with_bg(Color::Ansi(AnsiColor::BrightYellow)),
    {
        let mut res = self;
        res.style.bg = Color::Ansi(AnsiColor::BrightYellow);
        res
    }

    /// Set the background color to bright blue.
    #[inline]
    pub fn on_bright_blue(self) -> (res: Self)
        ensures
            res == self.with_bg(Color::Ansi(AnsiColor::BrightBlue)),
    {
        let mut res = self;
        res.style.bg = Color::Ansi(AnsiColor::BrightBlue);
        res
    }

    /// Set the background color to bright magenta.
    #[inline]
    pub fn on_bright_magenta(self) -> (res: Self)
        ensures
            res == self.with_bg(Color::Ansi(AnsiColor::BrightMagenta)),
    {
        let mut res = self;
        res.style.bg = Color::Ansi(AnsiColor::BrightMagenta);
        res
    }

    /// Set the background color to bright cyan.
    #[inline]
    pub fn on_bright_cyan(self) -> (res: Self)
        ensures
            res == self.with_bg(Color::Ansi(AnsiColor::BrightCyan)),
    {
        let mut res = self;
        res.style.bg = Color::Ansi(AnsiColor::BrightCyan);
        res
    }

    /// Set the background color to bright white.
    #[inline]
    pub fn on_bright_white(self) -> (res: Self)
        ensures
            res == self.with_bg(Color::Ansi(AnsiColor::BrightWhite)),
    {
        let mut res = self;
        res.style.bg = Color::Ansi(AnsiColor::BrightWhite);
        res
    }

    /// Add the given attributes to those already set. See [`Attributes`].
    #[inline]
    pub fn attributes(self, attributes: Attributes) -> (res: Self)
        ensures
            res == self.with_attributes(attributes),
    {
        let mut res = self;
        res.style.attributes = res.style.attributes.or(attributes);
        res
    }

    /// Set the bold attribute.
    #[inline]
    pub fn bold(self) -> (res: Self)
        ensures
            res == self.with_attributes(Attributes(Attributes::BOLD_BIT)),
    {
        self.attributes(Attributes::BOLD())
    }

    /// Set the dim attribute.
    #[inline]
    pub fn dim(self) -> (res: Self)
        ensures
            res == self.with_attributes(Attributes(Attributes::DIM_BIT)),
    {
        self.attributes(Attributes::DIM())
    }

    /// Set the italic attribute.
    #[inline]
    pub fn italic(self) -> (res: Self)
        ensures
            res == self.with_attributes(Attributes(Attributes::ITALIC_BIT)),
    {
        self.attributes(Attributes::ITALIC())
    }

    /// Set the underlined attribute.
    #[inline]
    pub fn underlined(self) -> (res: Self)
        ensures
            res == self.with_attributes(Attributes(Attributes::UNDERLINED_BIT)),
    {
        self.attributes(Attributes::UNDERLINED())
    }

    /// Set the blinking attribute.
    ///
    /// Not supported by many terminals.
    #[inline]
    pub fn blinking(self) -> (res: Self)
        ensures
            res == self.with_attributes(Attributes(Attributes::BLINKING_BIT)),
    {
        self.attributes(Attributes::BLINKING())
    }

    /// Set the inverted attribute.
    ///
    /// Inverts the foreground and background colors.
    #[inline]
    pub fn inverted(self) -> (res: Self)
        ensures
            res == self.with_attributes(Attributes(Attributes::INVERTED_BIT)),
    {
        self.attributes(Attributes::INVERTED())
    }

    /// Set the hidden attribute.
    ///
    /// Makes the text invisible.
    #[inline]
    pub fn hidden(self) -> (res: Self)
        ensures
            res == self.with_attributes(Attributes(Attributes::HIDDEN_BIT)),
    {
        self.attributes(Attributes::HIDDEN())
    }

    /// Set the crossed attribute.
    ///
    /// Makes the text struck through.
    #[inline]
    pub fn crossed(self) -> (res: Self)
        ensures
            res == self.with_attributes(Attributes(Attributes::CROSSED_BIT)),
    {
        self.attributes(Attributes::CROSSED())
    }
}

} // verus!
