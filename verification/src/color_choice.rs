//! The choice of whether to use color: a switch of the same kind as the style
//! switch, for a host that decides on color by itself.

use vstd::prelude::*;

use crate::enable::{env_supports_styling, EnableState, Environment};

verus! {

/// Whether to use color.
#[derive(Debug, Clone, Copy, PartialEq, Eq, Structural, Hash)]
pub enum ColorChoice {
    /// Auto-detect from the environment whether color is supported.
    Auto,
    /// Force color on or off.
    Force(bool),
}

impl Default for ColorChoice {
    fn default() -> (r: Self)
        ensures
            r == ColorChoice::Auto,
    {
        ColorChoice::Auto
    }
}

impl ColorChoice {
    /// What the choice resolves to in the given environment.
    pub open spec fn resolves_to(&self, env: &Environment) -> bool {
        match self {
            ColorChoice::Auto => env.supports_styling(),
            ColorChoice::Force(enabled) => *enabled,
        }
    }

    /// Auto-detect if color is supported.
    #[inline]
    pub fn auto() -> (r: Self)
        ensures
            r == ColorChoice::Auto,
    {
        ColorChoice::Auto
    }

    /// Always use color.
    #[inline]
    pub fn always() -> (r: Self)
        ensures
            r == ColorChoice::Force(true),
    {
        ColorChoice::Force(true)
    }

    /// Never use color.
    #[inline]
    pub fn never() -> (r: Self)
        ensures
            r == ColorChoice::Force(false),
    {
        ColorChoice::Force(false)
    }

    /// Resolves the choice to on or off.
    pub fn should_use_color(&self, env: &Environment) -> (r: bool)
        ensures
            r == self.resolves_to(env),
    {
        match self {
            ColorChoice::Auto => env_supports_color(env),
            ColorChoice::Force(enabled) => *enabled,
        }
    }
}

/// Auto-detects whether color is supported. The signals are those of styling:
/// see [`Environment::supports_styling`].
#[inline]
pub fn env_supports_color(env: &Environment) -> (r: bool)
    ensures
        r == env.supports_styling(),
{
    env_supports_styling(env)
}

/// Sets the color choice: resolves it at once, keeps the result in the
/// switch, and returns it. Returns `true` if color is to be used.
pub fn set_color_choice(
    state: &mut EnableState,
    color_choice: ColorChoice,
    env: &Environment,
) -> (use_color: bool)
    ensures
        use_color == color_choice.resolves_to(env),
        *final(state) == EnableState::resolved(use_color),
{
    let use_color = color_choice.should_use_color(env);
    *state = if use_color {
        EnableState::On
    } else {
        EnableState::Off
    };
    use_color
}

/// Returns `true` if color is enabled. An unresolved switch is resolved by
/// auto-detection and stays so; a resolved one is left as it is and the
/// environment is not looked at.
pub fn color_enabled(state: &mut EnableState, env: &Environment) -> (enabled: bool)
    ensures
        enabled == old(state).reads_as(env),
        *final(state) == EnableState::resolved(enabled),
{
    match *state {
        EnableState::Unresolved => set_color_choice(state, ColorChoice::Auto, env),
        EnableState::Off => false,
        EnableState::On => true,
    }
}

} // verus!
