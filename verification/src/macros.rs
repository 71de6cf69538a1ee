//! Content that is formatted when it is rendered: what a formatting macro of
//! a front end wraps its arguments in.

use vstd::prelude::*;

use crate::context::RenderContext;
use crate::display::Render;

verus! {

/// Content that is formatted when it is rendered rather than when it is made:
/// a callback from the context to the text.
///
/// The callback is called once for each rendering and is handed the context
/// in which the content stands, so that values nested in the text can be
/// rendered in it; see [`render`](crate::display::render). It must accept
/// every context, and its text must depend on nothing but the context.
pub struct FormatArgsCallback<F: Fn(RenderContext) -> String> {
    callback: F,
}

impl<F: Fn(RenderContext) -> String> FormatArgsCallback<F> {
    /// What makes a callback usable: it accepts every context, and no context
    /// gets two different texts.
    pub open spec fn usable(callback: F) -> bool {
        &&& forall|ctx: RenderContext| call_requires(callback, (ctx,))
        &&& forall|ctx: RenderContext, a: String, b: String|
            call_ensures(callback, (ctx,), a) && call_ensures(callback, (ctx,), b) ==> a@ == b@
    }

    #[verifier::type_invariant]
    spec fn well_formed(self) -> bool {
        Self::usable(self.callback)
    }

    /// The callback.
    pub closed spec fn callback(self) -> F {
        self.callback
    }

    /// The text that the callback gives in the given context.
    pub open spec fn formatted(self, ctx: RenderContext) -> Seq<char> {
        (choose|text: String| call_ensures(self.callback(), (ctx,), text))@
    }

    /// Wraps a callback.
    #[inline]
    pub fn new(callback: F) -> (r: Self)
        requires
            Self::usable(callback),
        ensures
            r.callback() == callback,
    {
        FormatArgsCallback { callback }
    }

    /// The text that a usable callback gives in a context is the text of any
    /// result that it can give there.
    pub proof fn lemma_formatted(self, ctx: RenderContext, text: String)
        requires
            Self::usable(self.callback()),
            call_ensures(self.callback(), (ctx,), text),
        ensures
            self.formatted(ctx) == text@,
            self.rendered(ctx) == text@,
    {
    }
}

/// Formatted content renders to the text that its callback gives in the
/// context.
impl<F: Fn(RenderContext) -> String> Render for FormatArgsCallback<F> {
    open spec fn rendered(&self, ctx: RenderContext) -> Seq<char> {
        self.formatted(ctx)
    }

    #[inline]
    fn fmt(&self, out: &mut String, ctx: &mut RenderContext) {
        proof {
            use_type_invariant(self);
        }
        let text = (self.callback)(*ctx);
        out.append(text.as_str());
    }
}

} // verus!
