//! The document whose layout is watched.

use vstd::prelude::*;

use super::factory::SinkCookies;

verus! {

/// The interface of the sink for changes of the layout.
pub const IID_TEXT_LAYOUT_SINK: u128 = 0x2af2d06a_dd5b_4927_a0b4_54f19c91fade;

/// The document whose layout is watched, if any is. `C` is its handle.
pub struct LayoutContext<C> {
    pub context: Option<C>,
}

impl<C> LayoutContext<C> {
    /// None is watched.
    pub fn new() -> (watched: LayoutContext<C>)
        ensures
            watched.context is None,
    {
        LayoutContext { context: None }
    }

    /// Stops watching: the document to take the sink down on, and the cookie
    /// to do it with, where it was advised there.
    pub fn unadvise_text_layout_sink(&mut self, cookies: &mut SinkCookies) -> (left: Option<
        (C, Option<u32>),
    >)
        ensures
            final(self).context is None,
            match old(self).context {
                Some(context) => {
                    &&& left == Some(
                        (
                            context,
                            if old(cookies)@.contains_key(IID_TEXT_LAYOUT_SINK) {
                                Some(old(cookies)@[IID_TEXT_LAYOUT_SINK])
                            } else {
                                None
                            },
                        ),
                    )
                    &&& final(cookies)@ == old(cookies)@.remove(IID_TEXT_LAYOUT_SINK)
                },
                None => left is None && final(cookies)@ == old(cookies)@,
            },
    {
        match self.context.take() {
            Some(context) => Some((context, cookies.unadvise_sink(IID_TEXT_LAYOUT_SINK))),
            None => None,
        }
    }

    /// Turns to another document. What was watched before is left first, so
    /// that no two are watched at once.
    pub fn advise_text_layout_sink(&mut self, context: C, cookies: &mut SinkCookies) -> (left: Option<
        (C, Option<u32>),
    >)
        ensures
            final(self).context == Some(context),
            match old(self).context {
                Some(context) => {
                    &&& left == Some(
                        (
                            context,
                            if old(cookies)@.contains_key(IID_TEXT_LAYOUT_SINK) {
                                Some(old(cookies)@[IID_TEXT_LAYOUT_SINK])
                            } else {
                                None
                            },
                        ),
                    )
                    &&& final(cookies)@ == old(cookies)@.remove(IID_TEXT_LAYOUT_SINK)
                },
                None => left is None && final(cookies)@ == old(cookies)@,
            },
    {
        let left = self.unadvise_text_layout_sink(cookies);
        self.context = Some(context);
        left
    }
}

} // verus!
