use stylic::{AnsiColor, Color};

#[test]
fn constructors_build_their_variant() {
    assert_eq!(Color::rgb(1, 2, 3), Color::Rgb(1, 2, 3));
    assert_eq!(Color::ansi(AnsiColor::Magenta), Color::Ansi(AnsiColor::Magenta));
    assert_eq!(Color::ansi256(200), Color::Ansi256(200));
    assert_eq!(Color::default(), Color::Default);
}

#[test]
fn named_constructors_build_the_named_color() {
    assert_eq!(Color::black(), Color::Ansi(AnsiColor::Black));
    assert_eq!(Color::red(), Color::Ansi(AnsiColor::Red));
    assert_eq!(Color::green(), Color::Ansi(AnsiColor::Green));
    assert_eq!(Color::yellow(), Color::Ansi(AnsiColor::Yellow));
    assert_eq!(Color::blue(), Color::Ansi(AnsiColor::Blue));
    assert_eq!(Color::magenta(), Color::Ansi(AnsiColor::Magenta));
    assert_eq!(Color::cyan(), Color::Ansi(AnsiColor::Cyan));
    assert_eq!(Color::white(), Color::Ansi(AnsiColor::White));
    assert_eq!(Color::bright_black(), Color::Ansi(AnsiColor::BrightBlack));
    assert_eq!(Color::bright_red(), Color::Ansi(AnsiColor::BrightRed));
    assert_eq!(Color::bright_green(), Color::Ansi(AnsiColor::BrightGreen));
    assert_eq!(Color::bright_yellow(), Color::Ansi(AnsiColor::BrightYellow));
    assert_eq!(Color::bright_blue(), Color::Ansi(AnsiColor::BrightBlue));
    assert_eq!(Color::bright_magenta(), Color::Ansi(AnsiColor::BrightMagenta));
    assert_eq!(Color::bright_cyan(), Color::Ansi(AnsiColor::BrightCyan));
    assert_eq!(Color::bright_white(), Color::Ansi(AnsiColor::BrightWhite));
}

#[test]
fn ansi_colors_have_a_digit_and_a_group() {
    let base = [
        AnsiColor::Black,
        AnsiColor::Red,
        AnsiColor::Green,
        AnsiColor::Yellow,
        AnsiColor::Blue,
        AnsiColor::Magenta,
        AnsiColor::Cyan,
        AnsiColor::White,
    ];
    let bright = [
        AnsiColor::BrightBlack,
        AnsiColor::BrightRed,
        AnsiColor::BrightGreen,
        AnsiColor::BrightYellow,
        AnsiColor::BrightBlue,
        AnsiColor::BrightMagenta,
        AnsiColor::BrightCyan,
        AnsiColor::BrightWhite,
    ];
    for i in 0..8 {
        assert_eq!(base[i].digit(), i as u8);
        assert_eq!(bright[i].digit(), i as u8);
        assert!(!base[i].bright());
        assert!(bright[i].bright());
    }
}
