//! The text before the composition, which the engine converts in view of.

use vstd::prelude::*;

use crate::failure::Failure;
use crate::strings::{encode_utf16, text_in_buffer};
#[allow(unused_imports)]
use crate::strings::{lossy_text, utf16};

verus! {

/// The UTF-16 units of text that the engine is told of.
pub const CONTEXT_UNITS: i32 = 30;

/// The flag of a document that stands in for another.
pub const SS_TRANSITORY: u32 = 4;

/// Whether the flags of a document say that it stands in for another. A
/// document whose flags cannot be read does not.
pub fn is_transitory(static_flags: Option<u32>) -> (transitory: bool)
    ensures
        transitory == match static_flags {
            Some(flags) => flags & SS_TRANSITORY == SS_TRANSITORY,
            None => false,
        },
{
    match static_flags {
        Some(flags) => flags & SS_TRANSITORY == SS_TRANSITORY,
        None => false,
    }
}

/// The document that holds the text: the one that the given one stands in for,
/// where it does and that one can be had, and otherwise the given one. It is a
/// failure to give none.
pub fn to_parent_document_if_exists<D>(
    document: Option<D>,
    static_flags: Option<u32>,
    parent: Option<D>,
) -> (holder: Result<D, Failure>)
    ensures
        match document {
            None => holder is Err && holder->Err_0.says("Document manager is null"@),
            Some(document) => holder == Ok::<D, Failure>(
                if static_flags is Some && static_flags->0 & SS_TRANSITORY == SS_TRANSITORY && parent
                    is Some {
                    parent->0
                } else {
                    document
                },
            ),
        },
{
    match document {
        None => Err(Failure::new("Document manager is null".to_string())),
        Some(document) => if is_transitory(static_flags) {
            match parent {
                Some(parent) => Ok(parent),
                None => Ok(document),
            }
        } else {
            Ok(document)
        },
    }
}

/// The context that the text is read from: that of the document that holds
/// it, where it can be had, and otherwise the given one. It is a failure to
/// give none.
pub fn to_parent_context_if_exists<C>(context: Option<C>, parent: Option<C>) -> (holder: Result<
    C,
    Failure,
>)
    ensures
        match context {
            None => holder is Err && holder->Err_0.says("Context is null"@),
            Some(context) => holder == Ok::<C, Failure>(
                match parent {
                    Some(parent) => parent,
                    None => context,
                },
            ),
        },
{
    match context {
        None => Err(Failure::new("Context is null".to_string())),
        Some(context) => match parent {
            Some(parent) => Ok(parent),
            None => Ok(context),
        },
    }
}

/// How far the two ends of a range move, in UTF-16 units, from the caret to the
/// text before what is composed.
#[derive(Debug, Clone, Copy, PartialEq, Eq, Structural)]
pub struct ContextWindow {
    pub start: i32,
    pub end: i32,
}

/// The window of text before what is composed. The caret stands after all that
/// the composition shows, so that both ends step back over it.
pub fn update_context(shown_text: &str) -> (window: ContextWindow)
    requires
        utf16(shown_text@).len() <= i32::MAX - CONTEXT_UNITS,
    ensures
        window.end == -utf16(shown_text@).len(),
        window.start == window.end - CONTEXT_UNITS,
{
    let shown: i32 = encode_utf16(shown_text).len() as i32;
    ContextWindow { start: -(CONTEXT_UNITS + shown), end: -shown }
}

/// The text that a read of the window gave.
pub fn context_text(units: &[u16], fetched: usize) -> (text: String)
    requires
        fetched <= units@.len(),
    ensures
        text@ == lossy_text(units@.take(fetched as int)),
        forall|encoded: Seq<char>| #[trigger]
            utf16(encoded) == units@.take(fetched as int) ==> text@ == encoded,
{
    text_in_buffer(units, fetched)
}

} // verus!
