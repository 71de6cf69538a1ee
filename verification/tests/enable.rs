use stylic::{
    color_enabled, env_supports_color, env_supports_styling, render, set_color_choice,
    set_style_mode, style_enabled, ColorChoice, EnableState, Environment, RenderContext, Style,
    StyleMode, Styled,
};

fn env(term: Option<&str>, no_color: Option<&str>) -> Environment {
    Environment { term: term.map(String::from), no_color: no_color.map(String::from) }
}

#[test]
fn absent_terminal_type_forces_off() {
    assert!(!env_supports_styling(&env(None, None)));
    assert!(!env_supports_styling(&env(None, Some("0"))));
    assert!(!env_supports_color(&env(None, None)));
}

#[test]
fn dumb_terminal_forces_off() {
    assert!(!env_supports_styling(&env(Some("dumb"), None)));
    assert!(!env_supports_color(&env(Some("dumb"), None)));
}

#[test]
fn other_terminal_types_allow_styling() {
    assert!(env_supports_styling(&env(Some("xterm-256color"), None)));
    assert!(env_supports_styling(&env(Some(""), None)));
    assert!(env_supports_styling(&env(Some("dumber"), None)));
    assert!(env_supports_styling(&env(Some("DUMB"), None)));
    assert!(env_supports_color(&env(Some("xterm"), None)));
}

#[test]
fn no_color_signal_forces_off() {
    assert!(!env_supports_styling(&env(Some("xterm"), Some("1"))));
    assert!(!env_supports_styling(&env(Some("xterm"), Some(""))));
    assert!(!env_supports_styling(&env(Some("xterm"), Some("true"))));
    assert!(!env_supports_styling(&env(Some("xterm"), Some("00"))));
    assert!(!env_supports_color(&env(Some("xterm"), Some("1"))));
}

#[test]
fn no_color_zero_is_no_signal() {
    assert!(env_supports_styling(&env(Some("xterm"), Some("0"))));
    assert!(env_supports_color(&env(Some("xterm"), Some("0"))));
}

#[test]
fn style_mode_constructors() {
    assert_eq!(StyleMode::auto(), StyleMode::Auto);
    assert_eq!(StyleMode::enable(), StyleMode::Force(true));
    assert_eq!(StyleMode::disable(), StyleMode::Force(false));
    assert_eq!(StyleMode::default(), StyleMode::Auto);
}

#[test]
fn color_choice_constructors() {
    assert_eq!(ColorChoice::auto(), ColorChoice::Auto);
    assert_eq!(ColorChoice::always(), ColorChoice::Force(true));
    assert_eq!(ColorChoice::never(), ColorChoice::Force(false));
    assert_eq!(ColorChoice::default(), ColorChoice::Auto);
}

#[test]
fn forced_modes_ignore_the_environment() {
    let good = env(Some("xterm"), None);
    let bad = env(None, Some("1"));
    assert!(StyleMode::enable().should_enable_styling(&bad));
    assert!(!StyleMode::disable().should_enable_styling(&good));
    assert!(StyleMode::auto().should_enable_styling(&good));
    assert!(!StyleMode::auto().should_enable_styling(&bad));
    assert!(ColorChoice::always().should_use_color(&bad));
    assert!(!ColorChoice::never().should_use_color(&good));
    assert!(ColorChoice::auto().should_use_color(&good));
    assert!(!ColorChoice::auto().should_use_color(&bad));
}

#[test]
fn set_style_mode_resolves_at_once() {
    let good = env(Some("xterm"), None);
    let bad = env(Some("dumb"), None);
    let mut state = EnableState::Unresolved;
    assert!(set_style_mode(&mut state, StyleMode::Auto, &good));
    assert_eq!(state, EnableState::On);
    assert!(!set_style_mode(&mut state, StyleMode::Auto, &bad));
    assert_eq!(state, EnableState::Off);
    assert!(set_style_mode(&mut state, StyleMode::Force(true), &bad));
    assert_eq!(state, EnableState::On);
    assert!(!set_style_mode(&mut state, StyleMode::Force(false), &good));
    assert_eq!(state, EnableState::Off);
}

#[test]
fn first_read_resolves_and_later_reads_keep_it() {
    let good = env(Some("xterm"), None);
    let bad = env(Some("dumb"), None);
    let mut state = EnableState::default();
    assert_eq!(state, EnableState::Unresolved);
    assert!(style_enabled(&mut state, &good));
    assert_eq!(state, EnableState::On);
    assert!(style_enabled(&mut state, &bad));
    assert_eq!(state, EnableState::On);
}

#[test]
fn no_color_resolves_to_off_until_overridden() {
    let no_color = env(Some("xterm"), Some("1"));
    let cleared = env(Some("xterm"), None);
    let mut state = EnableState::Unresolved;
    assert!(!style_enabled(&mut state, &no_color));
    assert_eq!(state, EnableState::Off);
    assert!(!style_enabled(&mut state, &no_color));
    assert!(!style_enabled(&mut state, &cleared));
    assert_eq!(state, EnableState::Off);
    let ctx = RenderContext::new(style_enabled(&mut state, &cleared));
    assert_eq!(render(&Styled::new("x").red(), ctx), "x");
    assert_eq!(render(&Style::new().red(), ctx), "");
    assert!(set_style_mode(&mut state, StyleMode::enable(), &no_color));
    assert!(style_enabled(&mut state, &no_color));
    assert_eq!(state, EnableState::On);
}

#[test]
fn color_switch_behaves_like_the_style_switch() {
    let good = env(Some("xterm"), None);
    let bad = env(Some("xterm"), Some("yes"));
    let mut state = EnableState::Unresolved;
    assert!(!color_enabled(&mut state, &bad));
    assert_eq!(state, EnableState::Off);
    assert!(!color_enabled(&mut state, &good));
    assert!(set_color_choice(&mut state, ColorChoice::Auto, &good));
    assert_eq!(state, EnableState::On);
    assert!(color_enabled(&mut state, &bad));
    assert!(!set_color_choice(&mut state, ColorChoice::never(), &good));
    assert!(!color_enabled(&mut state, &good));
    assert!(set_color_choice(&mut state, ColorChoice::always(), &bad));
    assert!(color_enabled(&mut state, &bad));
}

#[test]
fn states_map_to_small_integers() {
    assert_eq!(EnableState::Unresolved.to_raw(), 0);
    assert_eq!(EnableState::Off.to_raw(), 1);
    assert_eq!(EnableState::On.to_raw(), 2);
    assert_eq!(EnableState::from_raw(0), Some(EnableState::Unresolved));
    assert_eq!(EnableState::from_raw(1), Some(EnableState::Off));
    assert_eq!(EnableState::from_raw(2), Some(EnableState::On));
    for raw in 3..=255u8 {
        assert_eq!(EnableState::from_raw(raw), None);
    }
}
