use vstd::prelude::*;
use vstd::utf8::{encode_utf8, is_ascii_chars, is_ascii_chars_encode_utf8};

use crate::marshal::{from_internal, marshalled, opt_bytes};

verus! {

/// This library's version, exposed as a boundary string.
///
/// The version is simple ASCII, so outbound marshalling always succeeds:
/// the result is never null and never empty.
pub fn harper_get_lib_version() -> (r: Option<Vec<u8>>)
    ensures
        r is Some,
        r matches Some(b) ==> b@ == encode_utf8("0.1.0"@) && b@.len() > 0,
{
    let v = "0.1.0";
    proof {
        reveal_strlit("0.1.0");
        assert(is_ascii_chars(v@));
        is_ascii_chars_encode_utf8(v@);
        assert(forall|j: int|
            0 <= j < encode_utf8(v@).len() ==> #[trigger] encode_utf8(v@)[j] != 0u8);
        assert(!encode_utf8(v@).contains(0u8));
    }
    match from_internal(v) {
        Ok(b) => Some(b),
        Err(_) => {
            proof {
                assert(false);
            }
            None
        },
    }
}

/// The engine's version, exposed as a boundary string. The engine's own
/// version string is handed in by the layer that links the engine; it is
/// absent when no engine is loaded.
///
/// Returns the null sentinel when the version is absent or when outbound
/// marshalling fails (practically never, since version strings are simple
/// ASCII); otherwise exactly the UTF-8 bytes of the version string.
pub fn harper_get_core_version(core_version: Option<&str>) -> (r: Option<Vec<u8>>)
    ensures
        core_version is None ==> r is None,
        core_version matches Some(s) ==> marshalled(s@, opt_bytes(r)),
{
    let s = match core_version {
        Some(s) => s,
        None => {
            return None;
        },
    };
    match from_internal(s) {
        Ok(b) => Some(b),
        Err(_) => None,
    }
}

} // verus!
