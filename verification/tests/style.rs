use stylic::{AnsiColor, Attributes, Color, Hyperlink, Style, Styled};

#[test]
fn new_style_is_the_identity() {
    let s = Style::new();
    assert_eq!(s.fg, Color::Default);
    assert_eq!(s.bg, Color::Default);
    assert_eq!(s.attributes, Attributes::EMPTY());
    assert!(s.is_default());
    assert_eq!(Style::default(), s);
}

#[test]
fn is_default_sees_every_field() {
    assert!(!Style::new().red().is_default());
    assert!(!Style::new().on_red().is_default());
    assert!(!Style::new().bold().is_default());
    assert!(!Style::new().fg(Color::Ansi256(0)).is_default());
    assert!(Style::new().fg(Color::Default).bg(Color::Default).is_default());
}

#[test]
fn later_foreground_overwrites_earlier() {
    let s = Style::new().red().blue();
    assert_eq!(s.fg, Color::Ansi(AnsiColor::Blue));
    assert_eq!(s, Style::new().blue());
    let s = Style::new().color_rgb(1, 2, 3).color_ansi256(7);
    assert_eq!(s.fg, Color::Ansi256(7));
    let s = Style::new().bold().on_green().fg(Color::red()).fg(Color::Default);
    assert_eq!(s, Style::new().bold().on_green());
}

#[test]
fn later_background_overwrites_earlier() {
    let s = Style::new().on_red().on_blue();
    assert_eq!(s.bg, Color::Ansi(AnsiColor::Blue));
    assert_eq!(s, Style::new().on_blue());
    let s = Style::new().on_color_rgb(1, 2, 3).on_color_ansi(AnsiColor::BrightCyan);
    assert_eq!(s.bg, Color::Ansi(AnsiColor::BrightCyan));
}

#[test]
fn foreground_and_background_are_independent() {
    let s = Style::new().red().on_blue();
    assert_eq!(s.fg, Color::Ansi(AnsiColor::Red));
    assert_eq!(s.bg, Color::Ansi(AnsiColor::Blue));
    assert_eq!(s, Style::new().on_blue().red());
}

#[test]
fn attributes_accumulate() {
    let s = Style::new().bold().dim();
    assert!(s.attributes.contains(Attributes::BOLD()));
    assert!(s.attributes.contains(Attributes::DIM()));
    assert_eq!(s.attributes, Attributes(0x03));
    assert_eq!(Style::new().bold().bold(), Style::new().bold());
    assert_eq!(Style::new().dim().bold(), s);
    let s = s.attributes(Attributes::HIDDEN().or(Attributes::CROSSED()));
    assert_eq!(s.attributes, Attributes(0xc3));
}

#[test]
fn each_attribute_setter_sets_its_bit() {
    assert_eq!(Style::new().bold().attributes, Attributes::BOLD());
    assert_eq!(Style::new().dim().attributes, Attributes::DIM());
    assert_eq!(Style::new().italic().attributes, Attributes::ITALIC());
    assert_eq!(Style::new().underlined().attributes, Attributes::UNDERLINED());
    assert_eq!(Style::new().blinking().attributes, Attributes::BLINKING());
    assert_eq!(Style::new().inverted().attributes, Attributes::INVERTED());
    assert_eq!(Style::new().hidden().attributes, Attributes::HIDDEN());
    assert_eq!(Style::new().crossed().attributes, Attributes::CROSSED());
}

#[test]
fn each_named_setter_sets_its_color() {
    let fg: Vec<(Style, AnsiColor)> = vec![
        (Style::new().black(), AnsiColor::Black),
        (Style::new().red(), AnsiColor::Red),
        (Style::new().green(), AnsiColor::Green),
        (Style::new().yellow(), AnsiColor::Yellow),
        (Style::new().blue(), AnsiColor::Blue),
        (Style::new().magenta(), AnsiColor::Magenta),
        (Style::new().cyan(), AnsiColor::Cyan),
        (Style::new().white(), AnsiColor::White),
        (Style::new().bright_black(), AnsiColor::BrightBlack),
        (Style::new().bright_red(), AnsiColor::BrightRed),
        (Style::new().bright_green(), AnsiColor::BrightGreen),
        (Style::new().bright_yellow(), AnsiColor::BrightYellow),
        (Style::new().bright_blue(), AnsiColor::BrightBlue),
        (Style::new().bright_magenta(), AnsiColor::BrightMagenta),
        (Style::new().bright_cyan(), AnsiColor::BrightCyan),
        (Style::new().bright_white(), AnsiColor::BrightWhite),
    ];
    for (style, color) in fg {
        assert_eq!(style, Style { fg: Color::Ansi(color), ..Style::new() });
        assert_eq!(style, Style::new().color_ansi(color));
    }
    let bg: Vec<(Style, AnsiColor)> = vec![
        (Style::new().on_black(), AnsiColor::Black),
        (Style::new().on_red(), AnsiColor::Red),
        (Style::new().on_green(), AnsiColor::Green),
        (Style::new().on_yellow(), AnsiColor::Yellow),
        (Style::new().on_blue(), AnsiColor::Blue),
        (Style::new().on_magenta(), AnsiColor::Magenta),
        (Style::new().on_cyan(), AnsiColor::Cyan),
        (Style::new().on_white(), AnsiColor::White),
        (Style::new().on_bright_black(), AnsiColor::BrightBlack),
        (Style::new().on_bright_red(), AnsiColor::BrightRed),
        (Style::new().on_bright_green(), AnsiColor::BrightGreen),
        (Style::new().on_bright_yellow(), AnsiColor::BrightYellow),
        (Style::new().on_bright_blue(), AnsiColor::BrightBlue),
        (Style::new().on_bright_magenta(), AnsiColor::BrightMagenta),
        (Style::new().on_bright_cyan(), AnsiColor::BrightCyan),
        (Style::new().on_bright_white(), AnsiColor::BrightWhite),
    ];
    for (style, color) in bg {
        assert_eq!(style, Style { bg: Color::Ansi(color), ..Style::new() });
        assert_eq!(style, Style::new().on_color_ansi(color));
    }
}

#[test]
fn extended_color_setters() {
    assert_eq!(Style::new().color_rgb(161, 123, 90).fg, Color::Rgb(161, 123, 90));
    assert_eq!(Style::new().color_ansi256(42).fg, Color::Ansi256(42));
    assert_eq!(Style::new().on_color_rgb(0, 255, 7).bg, Color::Rgb(0, 255, 7));
    assert_eq!(Style::new().on_color_ansi256(255).bg, Color::Ansi256(255));
    assert_eq!(Style::new().bg(Color::rgb(9, 8, 7)).bg, Color::Rgb(9, 8, 7));
}

#[test]
fn styled_builders_change_the_style_only() {
    let styled = Styled::new("text");
    assert_eq!(styled.content, "text");
    assert_eq!(styled.style, Style::new());
    let styled = styled.bold().red().on_blue().red().cyan().italic();
    assert_eq!(styled.content, "text");
    assert_eq!(styled.style, Style::new().cyan().on_blue().bold().italic());
    let styled = Styled::new(7u8)
        .fg(Color::Ansi256(1))
        .bg(Color::Rgb(1, 2, 3))
        .attributes(Attributes::HIDDEN())
        .color_rgb(4, 5, 6)
        .on_color_ansi256(9)
        .on_bright_white()
        .underlined()
        .blinking()
        .inverted()
        .crossed()
        .dim();
    assert_eq!(styled.content, 7);
    assert_eq!(
        styled.style,
        Style {
            fg: Color::Rgb(4, 5, 6),
            bg: Color::Ansi(AnsiColor::BrightWhite),
            attributes: Attributes(0xfa),
        }
    );
}

#[test]
fn hyperlink_builders_change_the_style_only() {
    let link = Hyperlink::new("https://example.com", "Example");
    assert_eq!(link.uri, "https://example.com");
    assert_eq!(link.content, "Example");
    assert_eq!(link.style, Style::new());
    let link = link.bold().green().on_color_ansi(AnsiColor::Black).bright_green();
    assert_eq!(link.uri, "https://example.com");
    assert_eq!(link.content, "Example");
    assert_eq!(link.style, Style::new().bold().bright_green().on_black());
}

#[test]
fn default_wrappers_have_the_identity_style() {
    let styled: Styled<u8> = Styled::default();
    assert_eq!(styled, Styled::new(0));
    let link: Hyperlink<u8, bool> = Hyperlink::default();
    assert_eq!(link, Hyperlink::new(0, false));
}
