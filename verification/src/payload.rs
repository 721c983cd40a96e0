//! Payload decoder: strips the data-URI header up to the marker `;base64,`
//! and decodes the trailing base64 text into raw image bytes.
//!
//! Where the marker occurs more than once, the payload is everything after
//! the first occurrence; the rest of the text must then be base64.
use vstd::prelude::*;

verus! {

use vstd::string::StringSliceAdditionalSpecFns;
use vstd::slice::slice_index_get;
use crate::b64::{b64_decode, b64_encode, decode_base64};

/// A per-image decoding failure; non-fatal to the batch.
#[derive(Clone, Copy, Debug, PartialEq, Eq, Structural)]
pub enum PayloadError {
    /// The payload holds no data-URI marker.
    MissingMarker,
    /// The text after the marker is not valid base64.
    InvalidBase64,
}

/// The bytes of the data-URI marker `;base64,`.
pub open spec fn marker() -> Seq<u8> {
    seq![59u8, 98u8, 97u8, 115u8, 101u8, 54u8, 52u8, 44u8]
}

/// The marker occurs in `t` at position `i`.
pub open spec fn marker_at(t: Seq<u8>, i: int) -> bool {
    &&& 0 <= i
    &&& i + 8 <= t.len()
    &&& t.subrange(i, i + 8) == marker()
}

/// The position of the first marker occurrence at or after `i`, if any.
pub open spec fn first_marker_from(t: Seq<u8>, i: int) -> Option<int>
    decreases t.len() - i,
{
    if i < 0 || i + 8 > t.len() {
        None
    } else if marker_at(t, i) {
        Some(i)
    } else {
        first_marker_from(t, i + 1)
    }
}

/// The position of the first marker occurrence in `t`, if any.
pub open spec fn first_marker(t: Seq<u8>) -> Option<int> {
    first_marker_from(t, 0)
}

/// What the payload decoder returns for an input with byte sequence `t`.
pub open spec fn decode_payload_spec(t: Seq<u8>) -> Result<Seq<u8>, PayloadError> {
    match first_marker(t) {
        None => Err(PayloadError::MissingMarker),
        Some(p) => match b64_decode(t.subrange(p + 8, t.len() as int)) {
            None => Err(PayloadError::InvalidBase64),
            Some(data) => Ok(data),
        },
    }
}

/// A found first marker position is a marker occurrence at or after `i`.
proof fn lemma_first_marker_from_is_match(t: Seq<u8>, i: int, p: int)
    requires
        first_marker_from(t, i) == Some(p),
    ensures
        marker_at(t, p),
        i <= p,
    decreases t.len() - i,
{
    if i < 0 || i + 8 > t.len() {
    } else if marker_at(t, i) {
    } else {
        lemma_first_marker_from_is_match(t, i + 1, p);
    }
}

/// Whether the marker stands at position `i` of `t`.
fn is_marker_at(t: &[u8], i: usize) -> (r: bool)
    requires
        i + 8 <= t@.len(),
        t@.len() <= usize::MAX,
    ensures
        r == marker_at(t@, i as int),
{
    let r = *slice_index_get(t, i) == 59 && *slice_index_get(t, i + 1) == 98
        && *slice_index_get(t, i + 2) == 97 && *slice_index_get(t, i + 3) == 115
        && *slice_index_get(t, i + 4) == 101 && *slice_index_get(t, i + 5) == 54
        && *slice_index_get(t, i + 6) == 52 && *slice_index_get(t, i + 7) == 44;
    proof {
        let s = t@.subrange(i as int, i as int + 8);
        assert(forall|k: int| 0 <= k < 8 ==> s[k] == t@[i + k]);
        if r {
            assert(s =~= marker());
        }
        if marker_at(t@, i as int) {
            assert(t@[i as int] == s[0] && s[0] == marker()[0]);
            assert(t@[i + 1] == s[1] && s[1] == marker()[1]);
            assert(t@[i + 2] == s[2] && s[2] == marker()[2]);
            assert(t@[i + 3] == s[3] && s[3] == marker()[3]);
            assert(t@[i + 4] == s[4] && s[4] == marker()[4]);
            assert(t@[i + 5] == s[5] && s[5] == marker()[5]);
            assert(t@[i + 6] == s[6] && s[6] == marker()[6]);
            assert(t@[i + 7] == s[7] && s[7] == marker()[7]);
        }
    }
    r
}

/// The position of the first marker occurrence, scanning left to right.
fn find_marker(t: &[u8]) -> (r: Option<usize>)
    ensures
        match r {
            Some(p) => first_marker(t@) == Some(p as int),
            None => first_marker(t@) == None::<int>,
        },
{
    let n = t.len();
    if n < 8 {
        return None;
    }
    let mut i: usize = 0;
    while i <= n - 8
        invariant
            n == t@.len(),
            8 <= n,
            0 <= i <= n,
            first_marker(t@) == first_marker_from(t@, i as int),
        decreases n - i,
    {
        if is_marker_at(t, i) {
            return Some(i);
        }
        assert(first_marker_from(t@, i as int) == first_marker_from(t@, i + 1));
        i = i + 1;
    }
    None
}

/// Payload decoder: the raw image bytes of a data-URI payload, or the
/// failure. The result is `Ok` exactly on inputs that hold the marker and
/// whose text after the first marker is canonical base64.
///
/// A successful decode also round-trips: re-encoding the returned bytes to
/// base64 and reassembling them behind the same marker reproduces the input
/// byte for byte.
pub fn decode_payload(s: &str) -> (r: Result<Vec<u8>, PayloadError>)
    ensures
        (match r {
            Ok(data) => decode_payload_spec(s.spec_bytes()) == Ok::<Seq<u8>, PayloadError>(data@),
            Err(e) => decode_payload_spec(s.spec_bytes()) == Err::<Seq<u8>, PayloadError>(e),
        }),
        (r matches Ok(data) ==> exists|p: int|
            marker_at(s.spec_bytes(), p)
                && s.spec_bytes() == s.spec_bytes().subrange(0, p) + marker() + b64_encode(
                data@,
            )),
{
    let bytes = s.as_bytes();
    match find_marker(bytes) {
        None => Err(PayloadError::MissingMarker),
        Some(p) => {
            proof {
                lemma_first_marker_from_is_match(bytes@, 0, p as int);
            }
            let n = bytes.len();
            let suffix = &bytes[p + 8..n];
            match decode_base64(suffix) {
                None => Err(PayloadError::InvalidBase64),
                Some(data) => {
                    proof {
                        let t = s.spec_bytes();
                        assert(t == t.subrange(0, p as int) + marker() + t.subrange(
                            p + 8,
                            t.len() as int,
                        )) by {
                            assert(t.subrange(p as int, p + 8) == marker());
                            assert(t =~= t.subrange(0, p as int) + marker() + t.subrange(
                                p + 8,
                                t.len() as int,
                            ));
                        }
                    }
                    Ok(data)
                },
            }
        },
    }
}

} // verus!
