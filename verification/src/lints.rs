use vstd::prelude::*;

use crate::document::Document;
use crate::marshal::{from_internal, marshalled, opt_bytes};

verus! {

/// One finding produced by evaluating a lint group against a document: a
/// message and the span of the document's text it covers, in the engine's
/// native text unit. Each handle is individually owned by the caller.
pub struct Lint {
    message: String,
    start: usize,
    end: usize,
}

impl Lint {
    /// The finding's message.
    pub closed spec fn message_chars(self) -> Seq<char> {
        self.message@
    }

    /// The first offset the finding covers.
    pub closed spec fn span_start(self) -> nat {
        self.start as nat
    }

    /// The offset just past what the finding covers.
    pub closed spec fn span_end(self) -> nat {
        self.end as nat
    }

    /// Boxes one finding into an individually owned handle, carrying its
    /// message and span across the boundary unchanged.
    pub fn new(message: String, start: usize, end: usize) -> (l: Lint)
        ensures
            l.message_chars() == message@,
            l.span_start() == start as nat,
            l.span_end() == end as nat,
    {
        Lint { message, start, end }
    }
}

/// Marshals the findings of one evaluation into a caller-owned array of
/// lint handles.
///
/// `findings` is the ordered collection the evaluation produced, absent
/// when there was no lint group to run. Returns the null sentinel when the
/// document handle is null or the findings are absent; otherwise the
/// findings pass through unchanged, in the order the engine produced them,
/// and the caller owns the array and every element.
pub fn harper_get_lints(doc: Option<&Document>, findings: Option<Vec<Lint>>) -> (r: Option<
    Vec<Lint>,
>)
    ensures
        doc is None || findings is None ==> r is None,
        doc is Some && findings is Some ==> r == findings,
{
    if doc.is_none() {
        return None;
    }
    findings
}

/// Releases an array of lint handles: a no-op for the null (absent) array,
/// otherwise reclaims the array and every element it holds, exactly once
/// each, when the owned values drop. This is the only sanctioned way to
/// release a batch of findings.
pub fn harper_free_lints(lints: Option<Vec<Lint>>) {
    match lints {
        Some(owned) => {
            let _array = owned;
        },
        None => {},
    }
}

/// The finding's message, as a freshly allocated boundary string.
///
/// Returns the null sentinel when the handle is null or when outbound
/// marshalling fails (the message holds a NUL); otherwise exactly the
/// UTF-8 bytes of the message.
pub fn harper_get_lint_message(lint: Option<&Lint>) -> (r: Option<Vec<u8>>)
    ensures
        lint is None ==> r is None,
        lint matches Some(l) ==> marshalled(l.message_chars(), opt_bytes(r)),
{
    let l = match lint {
        Some(l) => l,
        None => {
            return None;
        },
    };
    match from_internal(l.message.as_str()) {
        Ok(b) => Some(b),
        Err(_) => None,
    }
}

/// The start offset of the finding's span, `-1` for the null handle. An
/// offset beyond the boundary integer's range is clamped to its maximum,
/// so the result of a valid handle is never negative.
pub fn harper_get_lint_start(lint: Option<&Lint>) -> (r: i32)
    ensures
        lint is None ==> r == -1,
        lint matches Some(l) ==> r >= 0 && r == if l.span_start() > i32::MAX {
            i32::MAX as int
        } else {
            l.span_start() as int
        },
{
    let l = match lint {
        Some(l) => l,
        None => {
            return -1;
        },
    };
    if l.start > i32::MAX as usize {
        i32::MAX
    } else {
        l.start as i32
    }
}

/// The end offset of the finding's span, `-1` for the null handle. An
/// offset beyond the boundary integer's range is clamped to its maximum,
/// so the result of a valid handle is never negative.
pub fn harper_get_lint_end(lint: Option<&Lint>) -> (r: i32)
    ensures
        lint is None ==> r == -1,
        lint matches Some(l) ==> r >= 0 && r == if l.span_end() > i32::MAX {
            i32::MAX as int
        } else {
            l.span_end() as int
        },
{
    let l = match lint {
        Some(l) => l,
        None => {
            return -1;
        },
    };
    if l.end > i32::MAX as usize {
        i32::MAX
    } else {
        l.end as i32
    }
}

} // verus!
