use stylic::macros::FormatArgsCallback;
use stylic::{
    begin_region, end_region, render, write_attributes, write_bg_color, write_decimal,
    write_fg_color, write_link_introducer, write_string_terminator, write_style, write_styled,
    AnsiColor, Attributes, Color, Hyperlink, Render, RenderContext, ResetPolicy, Style, Styled,
};

fn on() -> RenderContext {
    RenderContext::new(true)
}

fn off() -> RenderContext {
    RenderContext::new(false)
}

fn sequence(style: Style) -> String {
    let mut out = String::new();
    write_style(&mut out, style);
    out
}

#[test]
fn context_starts_outside_any_region() {
    let ctx = RenderContext::new(true);
    assert!(ctx.enabled);
    assert_eq!(ctx.policy, ResetPolicy::Nested);
    assert_eq!(ctx.reset_style, Style::new());
    let ctx = RenderContext::with_policy(false, ResetPolicy::Flat);
    assert!(!ctx.enabled);
    assert_eq!(ctx.policy, ResetPolicy::Flat);
    assert_eq!(ctx.reset_style, Style::new());
}

#[test]
fn decimal_has_no_leading_zeros() {
    let cases = [
        (0u8, "0"),
        (7, "7"),
        (9, "9"),
        (10, "10"),
        (42, "42"),
        (99, "99"),
        (100, "100"),
        (109, "109"),
        (255, "255"),
    ];
    for (n, text) in cases {
        let mut out = String::from("x");
        write_decimal(&mut out, n);
        assert_eq!(out, format!("x{}", text));
    }
    for n in 0..=255u8 {
        let mut out = String::new();
        write_decimal(&mut out, n);
        assert_eq!(out, format!("{}", n));
    }
}

#[test]
fn identity_style_is_the_reset_sequence() {
    assert_eq!(render(&Style::new(), on()), "\x1b[0m");
    assert_eq!(sequence(Style::new()), "\x1b[0m");
}

#[test]
fn disabled_style_renders_nothing() {
    let styles = [
        Style::new(),
        Style::new().red(),
        Style::new().on_color_rgb(1, 2, 3).bold().crossed(),
        Style::new().color_ansi256(255).on_bright_white().attributes(Attributes(0xff)),
    ];
    for style in styles {
        assert_eq!(render(&style, off()), "");
        assert_eq!(render(&style, RenderContext::with_policy(false, ResetPolicy::Flat)), "");
    }
}

#[test]
fn write_style_ignores_the_switch() {
    assert_eq!(sequence(Style::new().red()), "\x1b[0;31m");
}

#[test]
fn base_foreground_colors() {
    let colors = [
        AnsiColor::Black,
        AnsiColor::Red,
        AnsiColor::Green,
        AnsiColor::Yellow,
        AnsiColor::Blue,
        AnsiColor::Magenta,
        AnsiColor::Cyan,
        AnsiColor::White,
    ];
    for (i, color) in colors.into_iter().enumerate() {
        let mut out = String::new();
        write_fg_color(&mut out, Color::Ansi(color));
        assert_eq!(out, format!(";3{}", i));
        let mut out = String::new();
        write_bg_color(&mut out, Color::Ansi(color));
        assert_eq!(out, format!(";4{}", i));
    }
}

#[test]
fn bright_colors() {
    let colors = [
        AnsiColor::BrightBlack,
        AnsiColor::BrightRed,
        AnsiColor::BrightGreen,
        AnsiColor::BrightYellow,
        AnsiColor::BrightBlue,
        AnsiColor::BrightMagenta,
        AnsiColor::BrightCyan,
        AnsiColor::BrightWhite,
    ];
    for (i, color) in colors.into_iter().enumerate() {
        let mut out = String::new();
        write_fg_color(&mut out, Color::Ansi(color));
        assert_eq!(out, format!(";9{}", i));
        let mut out = String::new();
        write_bg_color(&mut out, Color::Ansi(color));
        assert_eq!(out, format!(";10{}", i));
    }
}

#[test]
fn default_color_writes_nothing() {
    let mut out = String::from("keep");
    write_fg_color(&mut out, Color::Default);
    write_bg_color(&mut out, Color::Default);
    assert_eq!(out, "keep");
}

#[test]
fn palette_colors() {
    let mut out = String::new();
    write_fg_color(&mut out, Color::Ansi256(0));
    write_bg_color(&mut out, Color::Ansi256(255));
    assert_eq!(out, ";38;5;0;48;5;255");
    assert_eq!(
        sequence(Style::new().color_ansi256(208).on_color_ansi256(17)),
        "\x1b[0;38;5;208;48;5;17m"
    );
}

#[test]
fn rgb_colors() {
    let mut out = String::new();
    write_fg_color(&mut out, Color::Rgb(161, 123, 90));
    assert_eq!(out, ";38;2;161;123;90");
    let mut out = String::new();
    write_bg_color(&mut out, Color::Rgb(0, 5, 100));
    assert_eq!(out, ";48;2;0;5;100");
    assert_eq!(
        sequence(Style::new().color_rgb(255, 0, 10).on_color_rgb(1, 22, 199)),
        "\x1b[0;38;2;255;0;10;48;2;1;22;199m"
    );
}

#[test]
fn attribute_codes() {
    let codes = [
        (Attributes::BOLD(), ";1"),
        (Attributes::DIM(), ";2"),
        (Attributes::ITALIC(), ";3"),
        (Attributes::UNDERLINED(), ";4"),
        (Attributes::BLINKING(), ";5"),
        (Attributes::INVERTED(), ";7"),
        (Attributes::HIDDEN(), ";8"),
        (Attributes::CROSSED(), ";9"),
    ];
    for (set, code) in codes {
        let mut out = String::new();
        write_attributes(&mut out, set);
        assert_eq!(out, code);
    }
    let mut out = String::from("x");
    write_attributes(&mut out, Attributes::EMPTY());
    assert_eq!(out, "x");
}

#[test]
fn attributes_come_in_the_fixed_order() {
    let mut out = String::new();
    write_attributes(&mut out, Attributes(0xff));
    assert_eq!(out, ";1;2;3;4;5;7;8;9");
    let mut out = String::new();
    write_attributes(&mut out, Attributes::CROSSED().or(Attributes::DIM()).or(Attributes::BOLD()));
    assert_eq!(out, ";1;2;9");
    assert_eq!(sequence(Style::new().inverted().italic()), "\x1b[0;3;7m");
    assert_eq!(sequence(Style::new().italic().inverted()), "\x1b[0;3;7m");
}

#[test]
fn every_attribute_set_renders_one_code_per_attribute() {
    let codes = ["1", "2", "3", "4", "5", "7", "8", "9"];
    for bits in 0..=255u8 {
        let mut expected = String::new();
        for (i, code) in codes.iter().enumerate() {
            if bits & (1 << i) != 0 {
                expected.push(';');
                expected.push_str(code);
            }
        }
        let mut out = String::new();
        write_attributes(&mut out, Attributes(bits));
        assert_eq!(out, expected);
    }
}

#[test]
fn foreground_background_attributes_in_that_order() {
    let style = Style::new().bold().on_blue().underlined().bright_yellow();
    assert_eq!(sequence(style), "\x1b[0;93;44;1;4m");
    assert_eq!(render(&style, on()), "\x1b[0;93;44;1;4m");
}

#[test]
fn text_renders_to_itself() {
    assert_eq!(render(&"plain", on()), "plain");
    assert_eq!(render(&String::from("owned"), off()), "owned");
    assert_eq!(render(&("a", ("b", String::from("c"))), on()), "abc");
}

#[test]
fn bold_red_hello_at_top_level() {
    let styled = Styled::new("Hello").bold().red();
    assert_eq!(render(&styled, on()), "\x1b[0;31;1mHello\x1b[0m");
}

#[test]
fn styled_inside_a_region_restores_that_region() {
    let styled = Styled::new("Hello").bold().red();
    let mut ctx = on();
    ctx.reset_style = Style::new().on_green();
    assert_eq!(render(&styled, ctx), "\x1b[0;31;1mHello\x1b[0;42m");
}

#[test]
fn disabled_styled_renders_its_content_alone() {
    let styled = Styled::new("Hello").bold().red();
    assert_eq!(render(&styled, off()), "Hello");
    let nested = Styled::new(("a", (Styled::new("b").blue(), "c"))).cyan();
    assert_eq!(render(&nested, off()), "abc");
    assert_eq!(render(&nested, RenderContext::with_policy(false, ResetPolicy::Flat)), "abc");
}

#[test]
fn rgb_nested_in_cyan_keeps_cyan_afterwards() {
    let inner = Styled::new("inner").color_rgb(161, 123, 90);
    let outer = Styled::new(("outer ", (inner, " tail"))).cyan();
    assert_eq!(
        render(&outer, on()),
        "\x1b[0;36mouter \x1b[0;38;2;161;123;90minner\x1b[0;36m tail\x1b[0m"
    );
}

#[test]
fn three_levels_close_innermost_first() {
    let c = Styled::new("c").crossed();
    let b = Styled::new(("b1", (c, "b2"))).on_blue();
    let a = Styled::new(("a1", (b, "a2"))).red().bold();
    let text = render(&a, on());
    assert_eq!(text, "\x1b[0;31;1ma1\x1b[0;44mb1\x1b[0;9mc\x1b[0;44mb2\x1b[0;31;1ma2\x1b[0m");
    // what is active after each close: C -> B -> A -> identity
    let after_c = text.find("c").unwrap() + 1;
    assert!(text[after_c..].starts_with("\x1b[0;44mb2"));
    let after_b = text.find("b2").unwrap() + 2;
    assert!(text[after_b..].starts_with("\x1b[0;31;1ma2"));
    assert!(text.ends_with("a2\x1b[0m"));
}

#[test]
fn flat_policy_resets_after_every_region() {
    let c = Styled::new("c").crossed();
    let b = Styled::new(("b1", (c, "b2"))).on_blue();
    let a = Styled::new(("a1", (b, "a2"))).red().bold();
    let text = render(&a, RenderContext::with_policy(true, ResetPolicy::Flat));
    assert_eq!(text, "\x1b[0;31;1ma1\x1b[0;44mb1\x1b[0;9mc\x1b[0mb2\x1b[0ma2\x1b[0m");
}

#[test]
fn flat_policy_at_top_level_equals_nested_policy() {
    let styled = Styled::new("Hello").bold().red();
    assert_eq!(
        render(&styled, RenderContext::with_policy(true, ResetPolicy::Flat)),
        render(&styled, on())
    );
}

#[test]
fn rendering_leaves_the_context_as_it_was() {
    let c = Styled::new("c").crossed();
    let b = Styled::new(("b1", (c, "b2"))).on_blue();
    for policy in [ResetPolicy::Flat, ResetPolicy::Nested] {
        for enabled in [false, true] {
            let mut ctx = RenderContext::with_policy(enabled, policy);
            ctx.reset_style = Style::new().italic();
            let before = ctx;
            let mut out = String::from("> ");
            b.fmt(&mut out, &mut ctx);
            assert_eq!(ctx, before);
            assert!(out.starts_with("> "));
        }
    }
}

#[test]
fn fmt_appends_to_what_is_there() {
    let mut out = String::from("log: ");
    let mut ctx = on();
    Styled::new("x").green().fmt(&mut out, &mut ctx);
    Style::new().fmt(&mut out, &mut ctx);
    "y".fmt(&mut out, &mut ctx);
    assert_eq!(out, "log: \x1b[0;32mx\x1b[0m\x1b[0my");
}

#[test]
fn write_styled_is_what_styled_renders() {
    let mut out = String::new();
    let mut ctx = on();
    write_styled(&mut out, &mut ctx, Style::new().magenta(), &"m");
    assert_eq!(out, "\x1b[0;35mm\x1b[0m");
    assert_eq!(out, render(&Styled::new("m").magenta(), on()));
    assert_eq!(ctx, on());
}

#[test]
fn regions_that_a_host_opens_and_closes() {
    let mut ctx = on();
    let mut out = String::new();
    let outer = Style::new().cyan();
    let inner = Style::new().bold();
    let saved_outer = begin_region(&mut out, &mut ctx, outer);
    assert_eq!(saved_outer, Style::new());
    assert_eq!(ctx.reset_style, outer);
    out.push_str("a");
    let saved_inner = begin_region(&mut out, &mut ctx, inner);
    assert_eq!(saved_inner, outer);
    assert_eq!(ctx.reset_style, inner);
    out.push_str("b");
    end_region(&mut out, &mut ctx, saved_inner);
    assert_eq!(ctx.reset_style, outer);
    out.push_str("c");
    end_region(&mut out, &mut ctx, saved_outer);
    assert_eq!(ctx, on());
    assert_eq!(out, "\x1b[0;36ma\x1b[0;1mb\x1b[0;36mc\x1b[0m");
}

#[test]
fn regions_with_styling_off_write_nothing() {
    let mut ctx = off();
    let mut out = String::new();
    let saved = begin_region(&mut out, &mut ctx, Style::new().red());
    assert_eq!(ctx.reset_style, Style::new().red());
    end_region(&mut out, &mut ctx, saved);
    assert_eq!(out, "");
    assert_eq!(ctx, off());
}

#[test]
fn hyperlink_frames_the_styled_label() {
    let link = Hyperlink::new("https://example.com", "Example").bold().green();
    let text = render(&link, on());
    assert_eq!(text, "\x1b]8;;https://example.com\x1b\\\x1b[0;32;1mExample\x1b[0m\x1b]8;;\x1b\\");
    assert!(text.starts_with("\x1b]8;;https://example.com\x1b\\"));
    assert!(text.contains("\x1b[0;32;1m"));
    assert!(text.contains("Example"));
    assert!(text.ends_with("\x1b[0m\x1b]8;;\x1b\\"));
}

#[test]
fn disabled_hyperlink_renders_its_content_alone() {
    let link = Hyperlink::new("https://example.com", "Example").bold().green();
    assert_eq!(render(&link, off()), "Example");
    let link = Hyperlink::new("https://example.com", Styled::new("Example").red());
    assert_eq!(render(&link, off()), "Example");
}

#[test]
fn hyperlink_inside_a_region_restores_that_region() {
    let link = Hyperlink::new("u", "l").underlined();
    let outer = Styled::new(("see ", (link, "!"))).yellow();
    assert_eq!(
        render(&outer, on()),
        "\x1b[0;33msee \x1b]8;;u\x1b\\\x1b[0;4ml\x1b[0;33m\x1b]8;;\x1b\\!\x1b[0m"
    );
}

#[test]
fn styled_uri_is_rendered_like_any_other_value() {
    let link = Hyperlink::new(Styled::new("u").red(), "l");
    assert_eq!(
        render(&link, on()),
        "\x1b]8;;\x1b[0;31mu\x1b[0m\x1b\\\x1b[0ml\x1b[0m\x1b]8;;\x1b\\"
    );
}

#[test]
fn formatted_content_is_made_when_rendered() {
    let inner = Styled::new("haha");
    let middle = Styled::new(FormatArgsCallback::new(move |ctx: RenderContext| {
        format!("he{}he", render(&inner, ctx))
    }))
    .blue();
    let world = Styled::new(FormatArgsCallback::new(move |ctx: RenderContext| {
        format!("Wor{}ld", render(&middle, ctx))
    }))
    .cyan()
    .inverted();
    assert_eq!(
        render(&world, on()),
        "\x1b[0;36;7mWor\x1b[0;34mhe\x1b[0mhaha\x1b[0;34mhe\x1b[0;36;7mld\x1b[0m"
    );
    assert_eq!(render(&world, off()), "Worhehahaheld");
}

#[test]
fn formatted_content_sees_the_context_it_stands_in() {
    let lazy = FormatArgsCallback::new(|ctx: RenderContext| {
        format!("{}:{}", ctx.enabled, ctx.reset_style == Style::new().red())
    });
    assert_eq!(render(&lazy, on()), "true:false");
    assert_eq!(render(&lazy, off()), "false:false");
    let styled = Styled::new(lazy).red();
    assert_eq!(render(&styled, on()), "\x1b[0;31mtrue:true\x1b[0m");
}

#[test]
fn link_framing_pieces() {
    let mut out = String::from("a");
    write_link_introducer(&mut out);
    assert_eq!(out, "a\x1b]8;;");
    write_string_terminator(&mut out);
    assert_eq!(out, "a\x1b]8;;\x1b\\");
}

#[test]
fn flat_hyperlink_resets_after_the_label() {
    let link = Hyperlink::new("u", "l").underlined();
    let outer = Styled::new(("see ", (link, "!"))).yellow();
    assert_eq!(
        render(&outer, RenderContext::with_policy(true, ResetPolicy::Flat)),
        "\x1b[0;33msee \x1b]8;;u\x1b\\\x1b[0;4ml\x1b[0m\x1b]8;;\x1b\\!\x1b[0m"
    );
}

#[test]
fn different_styles_have_different_sequences() {
    let colors = [
        Color::Default,
        Color::Ansi(AnsiColor::Black),
        Color::Ansi(AnsiColor::Red),
        Color::Ansi(AnsiColor::White),
        Color::Ansi(AnsiColor::BrightBlack),
        Color::Ansi(AnsiColor::BrightWhite),
        Color::Ansi256(0),
        Color::Ansi256(1),
        Color::Ansi256(5),
        Color::Ansi256(48),
        Color::Ansi256(255),
        Color::Rgb(0, 0, 0),
        Color::Rgb(1, 2, 3),
        Color::Rgb(12, 3, 4),
        Color::Rgb(1, 23, 4),
        Color::Rgb(5, 48, 2),
        Color::Rgb(255, 255, 255),
    ];
    let sets = [0x00u8, 0x01, 0x02, 0x03, 0x04, 0x08, 0x10, 0x20, 0x40, 0x80, 0x88, 0xff];
    let mut seen: Vec<(String, Style)> = Vec::new();
    for fg in colors {
        for bg in colors {
            for bits in sets {
                let style = Style { fg, bg, attributes: Attributes(bits) };
                seen.push((sequence(style), style));
            }
        }
    }
    seen.sort_by(|a, b| a.0.cmp(&b.0));
    for pair in seen.windows(2) {
        assert_ne!(pair[0].0, pair[1].0, "{:?} and {:?}", pair[0].1, pair[1].1);
    }
}
