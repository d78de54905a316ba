use vstd::prelude::*;
use vstd::string::StrSliceExecFns;
use vstd::utf8::{decode_utf8, encode_utf8, valid_utf8};

verus! {

/// Why a value could not cross the boundary.
#[derive(Clone, Copy, Debug, PartialEq, Eq, Structural)]
pub enum MarshalError {
    /// Inbound bytes are not a valid UTF-8 encoding.
    InvalidUtf8,
    /// Outbound text holds a NUL character and cannot become a
    /// NUL-terminated boundary string.
    InteriorNul,
}

/// The view of an optional byte buffer, for contracts.
pub open spec fn opt_bytes(r: Option<Vec<u8>>) -> Option<Seq<u8>> {
    match r {
        Some(b) => Some(b@),
        None => None,
    }
}

/// What outbound marshalling of the given text must yield: the UTF-8
/// encoding of the text when that encoding holds no NUL byte, and the null
/// sentinel otherwise.
pub open spec fn marshalled(text: Seq<char>, r: Option<Seq<u8>>) -> bool {
    &&& (r is Some <==> !encode_utf8(text).contains(0u8))
    &&& (r matches Some(b) ==> b == encode_utf8(text))
}

/// Read-only accessors that produce boundary strings are idempotent: any two
/// results that outbound marshalling admits for the same text are equal, so
/// two calls on the same still-valid handle return the same bytes.
pub proof fn lemma_marshalled_deterministic(
    text: Seq<char>,
    r1: Option<Seq<u8>>,
    r2: Option<Seq<u8>>,
)
    requires
        marshalled(text, r1),
        marshalled(text, r2),
    ensures
        r1 == r2,
{
}

/// Relies on `String::from_utf8`: it returns `Ok` exactly when the bytes are
/// a valid UTF-8 encoding, and the string it builds holds the decoded
/// characters of those very bytes.
#[verifier::external_body]
fn string_from_utf8(bytes: Vec<u8>) -> (r: Option<String>)
    ensures
        r is Some <==> valid_utf8(bytes@),
        r is Some ==> r->0@ == decode_utf8(bytes@),
{
    String::from_utf8(bytes).ok()
}

/// Inbound marshalling: interpret caller-provided bytes strictly as UTF-8.
///
/// Succeeds exactly on valid UTF-8 and returns the decoded text; any invalid
/// sequence is rejected whole, so no partial value ever crosses the boundary.
pub fn to_internal(bytes: Vec<u8>) -> (r: Result<String, MarshalError>)
    ensures
        r is Ok <==> valid_utf8(bytes@),
        r is Ok ==> r->Ok_0@ == decode_utf8(bytes@),
        r is Err ==> r->Err_0 == MarshalError::InvalidUtf8,
{
    match string_from_utf8(bytes) {
        Some(s) => Ok(s),
        None => Err(MarshalError::InvalidUtf8),
    }
}

/// Outbound marshalling: turn engine text into the bytes of a boundary
/// string, without the trailing NUL terminator.
///
/// Succeeds exactly when the UTF-8 encoding of the text holds no NUL byte,
/// and then returns exactly that encoding; the buffer is freshly allocated
/// and never aliases the engine's own storage.
pub fn from_internal(s: &str) -> (r: Result<Vec<u8>, MarshalError>)
    ensures
        r is Ok <==> !encode_utf8(s@).contains(0u8),
        r is Ok ==> r->Ok_0@ == encode_utf8(s@),
        r is Err ==> r->Err_0 == MarshalError::InteriorNul,
{
    let bytes: Vec<u8> = s.as_bytes_vec();
    let n: usize = bytes.len();
    let mut i: usize = 0;
    while i < n
        invariant
            bytes@ == encode_utf8(s@),
            n == bytes@.len(),
            i <= n,
            forall|j: int| 0 <= j < i ==> bytes@[j] != 0u8,
        decreases n - i,
    {
        if bytes[i] == 0u8 {
            assert(encode_utf8(s@).contains(0u8)) by {
                assert(encode_utf8(s@)[i as int] == 0u8);
            }
            return Err(MarshalError::InteriorNul);
        }
        i += 1;
    }
    assert(!encode_utf8(s@).contains(0u8)) by {
        assert(forall|j: int| 0 <= j < encode_utf8(s@).len() ==> encode_utf8(s@)[j] != 0u8);
    }
    Ok(bytes)
}

} // verus!
