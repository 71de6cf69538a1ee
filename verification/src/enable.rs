//! The switch that decides whether escape sequences are emitted at all.

use vstd::prelude::*;

verus! {

/// The signals of the environment that auto-detection goes by, as the host
/// read them.
#[derive(Debug, Clone, PartialEq, Eq, Hash)]
pub struct Environment {
    /// The terminal type (the variable `TERM`), if it is set.
    pub term: Option<String>,
    /// The no-color signal (the variable `NO_COLOR`), if it is set.
    pub no_color: Option<String>,
}

impl Environment {
    /// Whether the environment speaks for styling: a terminal type is set and
    /// is not `dumb`, and the no-color signal is absent or is `0`.
    pub open spec fn supports_styling(&self) -> bool {
        &&& self.term matches Some(term) && term@ != seq!['d', 'u', 'm', 'b']
        &&& !(self.no_color matches Some(value) && value@ != seq!['0'])
    }
}

/// Whether a string is the given text.
fn is_text(s: &String, text: &str) -> (r: bool)
    ensures
        r == (s@ == text@),
{
    let other = String::from_str(text);
    *s == other
}

/// Auto-detects whether styling is supported; see
/// [`Environment::supports_styling`].
pub fn env_supports_styling(env: &Environment) -> (r: bool)
    ensures
        r == env.supports_styling(),
{
    proof {
        reveal_strlit("dumb");
        reveal_strlit("0");
    }
    assert("dumb"@ =~= seq!['d', 'u', 'm', 'b']);
    assert("0"@ =~= seq!['0']);
    match &env.term {
        Some(term) => {
            if is_text(term, "dumb") {
                return false;
            }
        },
        None => {
            return false;
        },
    }
    match &env.no_color {
        Some(value) => {
            if !is_text(value, "0") {
                return false;
            }
        },
        None => {},
    }
    true
}

/// Whether to enable or disable styling.
#[derive(Debug, Clone, Copy, PartialEq, Eq, Structural, Hash)]
pub enum StyleMode {
    /// Auto-detect from the environment whether styling is supported.
    Auto,
    /// Force styling on or off.
    Force(bool),
}

impl Default for StyleMode {
    fn default() -> (r: Self)
        ensures
            r == StyleMode::Auto,
    {
        StyleMode::Auto
    }
}

impl StyleMode {
    /// What the mode resolves to in the given environment.
    pub open spec fn resolves_to(&self, env: &Environment) -> bool {
        match self {
            StyleMode::Auto => env.supports_styling(),
            StyleMode::Force(enabled) => *enabled,
        }
    }

    /// Auto-detect if styling is supported.
    #[inline]
    pub fn auto() -> (r: Self)
        ensures
            r == StyleMode::Auto,
    {
        StyleMode::Auto
    }

    /// Force-enable styling.
    #[inline]
    pub fn enable() -> (r: Self)
        ensures
            r == StyleMode::Force(true),
    {
        StyleMode::Force(true)
    }

    /// Force-disable styling.
    #[inline]
    pub fn disable() -> (r: Self)
        ensures
            r == StyleMode::Force(false),
    {
        StyleMode::Force(false)
    }

    /// Resolves the mode to on or off.
    pub fn should_enable_styling(&self, env: &Environment) -> (r: bool)
        ensures
            r == self.resolves_to(env),
    {
        match self {
            StyleMode::Auto => env_supports_styling(env),
            StyleMode::Force(enabled) => *enabled,
        }
    }
}

/// The state of an enable switch: not yet resolved, or resolved to off or on.
///
/// A switch starts unresolved. The first read resolves it by auto-detection;
/// after that only an explicit set changes it.
#[derive(Debug, Clone, Copy, PartialEq, Eq, Structural, Hash)]
pub enum EnableState {
    /// Nothing has read or set the switch yet.
    Unresolved,
    /// Off.
    Off,
    /// On.
    On,
}

impl Default for EnableState {
    fn default() -> (r: Self)
        ensures
            r == EnableState::Unresolved,
    {
        EnableState::Unresolved
    }
}

impl EnableState {
    /// The resolved state that stands for `enabled`.
    pub open spec fn resolved(enabled: bool) -> EnableState {
        if enabled {
            EnableState::On
        } else {
            EnableState::Off
        }
    }

    /// What a read of the switch gives in the given environment.
    pub open spec fn reads_as(&self, env: &Environment) -> bool {
        match self {
            EnableState::Unresolved => env.supports_styling(),
            EnableState::Off => false,
            EnableState::On => true,
        }
    }

    /// The small integer that stands for the state: 0 for unresolved, 1 for
    /// off, 2 for on.
    pub open spec fn raw(&self) -> u8 {
        match self {
            EnableState::Unresolved => 0,
            EnableState::Off => 1,
            EnableState::On => 2,
        }
    }

    /// The state as a small integer, for a host that keeps it in one cell.
    #[inline]
    pub fn to_raw(&self) -> (r: u8)
        ensures
            r == self.raw(),
    {
        match self {
            EnableState::Unresolved => 0,
            EnableState::Off => 1,
            EnableState::On => 2,
        }
    }

    /// The state that a small integer stands for, if it stands for one.
    #[inline]
    pub fn from_raw(raw: u8) -> (r: Option<Self>)
        ensures
            raw <= 2 <==> r is Some,
            r matches Some(state) ==> state.raw() == raw,
    {
        match raw {
            0 => Some(EnableState::Unresolved),
            1 => Some(EnableState::Off),
            2 => Some(EnableState::On),
            _ => None,
        }
    }

    /// Once a switch is resolved, a read gives the same answer whatever the
    /// environment has become.
    pub proof fn lemma_resolution_is_stable(&self, first: &Environment, later: &Environment)
        ensures
            EnableState::resolved(self.reads_as(first)).reads_as(later) == self.reads_as(first),
    {
    }
}

/// Sets the style mode: resolves it at once, keeps the result in the switch,
/// and returns it. Returns `true` if styling is enabled.
pub fn set_style_mode(state: &mut EnableState, mode: StyleMode, env: &Environment) -> (enabled:
    bool)
    ensures
        enabled == mode.resolves_to(env),
        *final(state) == EnableState::resolved(enabled),
{
    let enabled = mode.should_enable_styling(env);
    *state = if enabled {
        EnableState::On
    } else {
        EnableState::Off
    };
    enabled
}

/// Returns `true` if styling is enabled. An unresolved switch is resolved by
/// auto-detection and stays so; a resolved one is left as it is and the
/// environment is not looked at.
pub fn style_enabled(state: &mut EnableState, env: &Environment) -> (enabled: bool)
    ensures
        enabled == old(state).reads_as(env),
        *final(state) == EnableState::resolved(enabled),
{
    match *state {
        EnableState::Unresolved => set_style_mode(state, StyleMode::Auto, env),
        EnableState::Off => false,
        EnableState::On => true,
    }
}

} // verus!
