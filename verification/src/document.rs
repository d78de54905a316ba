use vstd::prelude::*;
use vstd::string::StrSliceExecFns;
use vstd::utf8::{decode_utf8, encode_utf8, valid_utf8};

use crate::marshal::{from_internal, marshalled, opt_bytes, to_internal};

verus! {

/// A token's extent in a document's text, in characters, as the tokenizer
/// reported it: a half-open range `[start, end)`.
#[derive(Clone, Copy, Debug, PartialEq, Eq, Structural)]
pub struct Span {
    pub start: usize,
    pub end: usize,
}

/// True when every span lies inside a text of `len` characters.
pub open spec fn spans_in_bounds(spans: Seq<Span>, len: int) -> bool {
    forall|i: int| 0 <= i < spans.len() ==>
        (#[trigger] spans[i]).start <= spans[i].end && spans[i].end <= len
}

/// A document handle: the text the engine reconstructs for the document,
/// immutable after construction, together with the token spans the
/// tokenizer produced over that text. The caller owns the handle from the
/// moment it is returned and releases it exactly once.
pub struct Document {
    text: String,
    char_len: usize,
    spans: Vec<Span>,
}

impl Document {
    /// The document's full text.
    pub closed spec fn text_chars(self) -> Seq<char> {
        self.text@
    }

    /// The token spans, in the order the tokenizer produced them.
    pub closed spec fn token_spans(self) -> Seq<Span> {
        self.spans@
    }

    /// The cached character count of the text.
    pub closed spec fn cached_len(self) -> nat {
        self.char_len as nat
    }

    /// The number of tokens.
    pub open spec fn token_count(self) -> nat {
        self.token_spans().len()
    }

    /// The exact source substring spanned by token `i`.
    pub open spec fn token_chars(self, i: int) -> Seq<char> {
        self.text_chars().subrange(
            self.token_spans()[i].start as int,
            self.token_spans()[i].end as int,
        )
    }

    /// Well-formedness: the cached character count is the text's length and
    /// every token span lies inside the text. Every handle this library
    /// hands out satisfies it.
    pub open spec fn wf(self) -> bool {
        &&& self.cached_len() == self.text_chars().len()
        &&& spans_in_bounds(self.token_spans(), self.text_chars().len() as int)
    }
}

/// Creates a document handle from a boundary string and the token spans the
/// tokenizer produced over its text.
///
/// Returns the null sentinel when the input is absent (a null boundary
/// string), when its bytes are not valid UTF-8, or when a claimed token
/// span does not lie inside the decoded text; no partially initialized
/// handle is ever returned. On success the caller owns the handle.
pub fn harper_create_document(text: Option<Vec<u8>>, token_spans: Vec<Span>) -> (r: Option<
    Document,
>)
    ensures
        r is Some <==> (text matches Some(b) && valid_utf8(b@) && spans_in_bounds(
            token_spans@,
            decode_utf8(b@).len() as int,
        )),
        r matches Some(d) ==> {
            &&& d.wf()
            &&& d.text_chars() == decode_utf8(text->0@)
            &&& d.token_spans() == token_spans@
        },
{
    let bytes = match text {
        Some(b) => b,
        None => {
            return None;
        },
    };
    let s = match to_internal(bytes) {
        Ok(s) => s,
        Err(_) => {
            return None;
        },
    };
    let n: usize = s.as_str().unicode_len();
    let count: usize = token_spans.len();
    let mut i: usize = 0;
    while i < count
        invariant
            count == token_spans@.len(),
            i <= count,
            n == s@.len(),
            text matches Some(b) && valid_utf8(b@) && s@ == decode_utf8(b@),
            forall|j: int| 0 <= j < i ==>
                (#[trigger] token_spans@[j]).start <= token_spans@[j].end
                    && token_spans@[j].end <= n,
        decreases count - i,
    {
        let sp = token_spans[i];
        if !(sp.start <= sp.end && sp.end <= n) {
            proof {
                assert(!((token_spans@[i as int]).start <= token_spans@[i as int].end
                    && token_spans@[i as int].end <= s@.len()));
            }
            return None;
        }
        i += 1;
    }
    Some(Document { text: s, char_len: n, spans: token_spans })
}

/// Round trip: a document created from a valid boundary string gives back,
/// through outbound marshalling, exactly the bytes it was created from.
/// `harper_create_document` ensures the document's text is the decoding of
/// the input, and this law says that encoding that text again restores the
/// input, so `harper_get_document_text` on such a document returns it
/// unchanged. It is stated for inputs without a NUL byte, the only byte
/// strings a NUL-terminated boundary string can carry.
pub proof fn lemma_document_text_round_trip(bytes: Seq<u8>, d: Document)
    requires
        valid_utf8(bytes),
        !bytes.contains(0u8),
        d.text_chars() == decode_utf8(bytes),
    ensures
        marshalled(d.text_chars(), Some(bytes)),
{
    broadcast use vstd::utf8::decode_utf8_encode_utf8;

    assert(encode_utf8(d.text_chars()) == bytes);
}

/// Releases a document handle: a no-op for the null (absent) handle,
/// otherwise the handle's memory is reclaimed exactly once, here, when the
/// owned value drops.
pub fn harper_free_document(doc: Option<Document>) {
    match doc {
        Some(owned) => {
            let _document = owned;
        },
        None => {},
    }
}

/// The full reconstructed text of the document, as a freshly allocated
/// boundary string.
///
/// Returns the null sentinel when the handle is null or when outbound
/// marshalling fails (the text holds a NUL); otherwise exactly the UTF-8
/// bytes of the document's text.
pub fn harper_get_document_text(doc: Option<&Document>) -> (r: Option<Vec<u8>>)
    requires
        doc matches Some(d) ==> d.wf(),
    ensures
        doc is None ==> r is None,
        doc matches Some(d) ==> marshalled(d.text_chars(), opt_bytes(r)),
{
    let d = match doc {
        Some(d) => d,
        None => {
            return None;
        },
    };
    match from_internal(d.text.as_str()) {
        Ok(b) => Some(b),
        Err(_) => None,
    }
}

/// The number of tokens in the document, `-1` for the null handle. A count
/// beyond the boundary integer's range is clamped to its maximum, so the
/// result of a valid handle is never negative.
pub fn harper_get_token_count(doc: Option<&Document>) -> (r: i32)
    ensures
        doc is None ==> r == -1,
        doc matches Some(d) ==> r >= 0 && r == if d.token_count() > i32::MAX {
            i32::MAX as int
        } else {
            d.token_count() as int
        },
{
    let d = match doc {
        Some(d) => d,
        None => {
            return -1;
        },
    };
    let n: usize = d.spans.len();
    if n > i32::MAX as usize {
        i32::MAX
    } else {
        n as i32
    }
}

/// The exact source substring spanned by one token, as a freshly allocated
/// boundary string.
///
/// Returns the null sentinel when the handle is null, the index is negative
/// or at least the token count, or outbound marshalling fails; otherwise
/// exactly the UTF-8 bytes of the token's text.
pub fn harper_get_token_text(doc: Option<&Document>, index: i32) -> (r: Option<Vec<u8>>)
    requires
        doc matches Some(d) ==> d.wf(),
    ensures
        doc is None || index < 0 ==> r is None,
        doc matches Some(d) ==> index >= 0 ==> {
            if index < d.token_count() {
                marshalled(d.token_chars(index as int), opt_bytes(r))
            } else {
                r is None
            }
        },
{
    let d = match doc {
        Some(d) => d,
        None => {
            return None;
        },
    };
    if index < 0 {
        return None;
    }
    let i = index as usize;
    if i >= d.spans.len() {
        return None;
    }
    let sp = d.spans[i];
    let piece = d.text.as_str().substring_char(sp.start, sp.end);
    match from_internal(piece) {
        Ok(b) => Some(b),
        Err(_) => None,
    }
}

} // verus!
