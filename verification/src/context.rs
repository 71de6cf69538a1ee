//! What a render call is handed: the enable switch, the reset policy and the
//! style of the enclosing region.

use vstd::prelude::*;

use crate::style::Style;

verus! {

/// How a styled region ends.
#[derive(Debug, Clone, Copy, PartialEq, Eq, Structural, Hash)]
pub enum ResetPolicy {
    /// Every region ends with the full reset, whatever encloses it. Text that
    /// follows a styled region inside another one loses the outer style.
    Flat,
    /// Every region ends by restoring the style of the region that encloses
    /// it, so that text after an inner region goes on in the outer style.
    Nested,
}

/// The state that rendering reads and keeps.
///
/// `reset_style` is the slot that records the style of the region being
/// rendered: it is what the end of a region nested in it has to restore.
/// Outside any region it holds the identity style. Rendering a value changes
/// the slot while the value's content is rendered and puts it back before it
/// returns.
#[derive(Debug, Clone, Copy, PartialEq, Eq, Structural, Hash)]
pub struct RenderContext {
    /// Whether escape sequences are emitted at all.
    pub enabled: bool,
    /// How styled regions end.
    pub policy: ResetPolicy,
    /// The style of the enclosing region.
    pub reset_style: Style,
}

impl RenderContext {
    /// The context outside any region.
    pub open spec fn top_level(enabled: bool, policy: ResetPolicy) -> RenderContext {
        RenderContext { enabled, policy, reset_style: Style::identity() }
    }

    /// The context in which the content of a region of the given style is
    /// rendered: the slot holds that style.
    pub open spec fn inside(self, style: Style) -> RenderContext {
        RenderContext { reset_style: style, ..self }
    }

    /// The style that the end of a region brings back, for a region that began
    /// in this context: the enclosing style with the nested policy, the
    /// identity style with the flat one.
    pub open spec fn restored(self) -> Style {
        match self.policy {
            ResetPolicy::Flat => Style::identity(),
            ResetPolicy::Nested => self.reset_style,
        }
    }

    /// A context outside any region, with the nested reset policy.
    #[inline]
    pub fn new(enabled: bool) -> (ctx: Self)
        ensures
            ctx == RenderContext::top_level(enabled, ResetPolicy::Nested),
    {
        RenderContext { enabled, policy: ResetPolicy::Nested, reset_style: Style::new() }
    }

    /// A context outside any region, with the given reset policy.
    #[inline]
    pub fn with_policy(enabled: bool, policy: ResetPolicy) -> (ctx: Self)
        ensures
            ctx == RenderContext::top_level(enabled, policy),
    {
        RenderContext { enabled, policy, reset_style: Style::new() }
    }
}

} // verus!
