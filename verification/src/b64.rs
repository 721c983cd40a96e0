//! Base64 text handling: the output encoder and the trusted bindings to the
//! `base64` crate that it and the payload decoder rely on.
use vstd::prelude::*;
use base64::Engine;

verus! {

/// The bytes that `base64`'s standard engine decodes `text` to, or `None`
/// where `text` is not canonical padded base64.
pub uninterp spec fn b64_decode(text: Seq<u8>) -> Option<Seq<u8>>;

/// The base64 text (standard alphabet, with padding) for `data`, as bytes.
pub uninterp spec fn b64_encode(data: Seq<u8>) -> Seq<u8>;

/// Relies on `base64`'s `Engine::decode` with the `STANDARD` engine: the
/// result depends on the input bytes alone, and because that engine requires
/// canonical padding and rejects non-zero trailing bits, a successful decode
/// means the input is exactly the canonical encoding of the returned bytes.
#[verifier::external_body]
pub(crate) fn decode_base64(text: &[u8]) -> (r: Option<Vec<u8>>)
    ensures
        match r {
            Some(data) => b64_decode(text@) == Some(data@) && b64_encode(data@) == text@,
            None => b64_decode(text@) == None::<Seq<u8>>,
        },
{
    match base64::prelude::BASE64_STANDARD.decode(text) {
        Ok(data) => Some(data),
        Err(_) => None,
    }
}

/// Relies on `base64`'s `Engine::encode` with the `STANDARD` engine: the
/// returned text depends on the input bytes alone and consists of ASCII
/// characters of the base64 alphabet and padding.
#[verifier::external_body]
fn encode_base64(data: &[u8]) -> (r: String)
    ensures
        vstd::utf8::encode_utf8(r@) == b64_encode(data@),
        vstd::utf8::is_ascii_chars(r@),
{
    base64::prelude::BASE64_STANDARD.encode(data)
}

/// Output encoder: the base64 text for a byte buffer, using the standard
/// alphabet with padding. A byte buffer is always encodable: no error path.
pub fn encode_output(data: &[u8]) -> (r: String)
    ensures
        vstd::utf8::encode_utf8(r@) == b64_encode(data@),
        vstd::utf8::is_ascii_chars(r@),
{
    encode_base64(data)
}

/// Law: the output encoder is deterministic. Encoding the same byte buffer
/// twice yields identical text: the encoding depends on the bytes alone.
pub proof fn lemma_encode_output_deterministic(a: Seq<u8>, b: Seq<u8>)
    requires
        a == b,
    ensures
        b64_encode(a) == b64_encode(b),
{
}

/// Law: two ASCII texts with the same UTF-8 bytes are the same text. With
/// the contract of `encode_output` this pins the encoder's output down to
/// one text per byte buffer.
pub proof fn lemma_ascii_text_unique(r1: Seq<char>, r2: Seq<char>)
    requires
        vstd::utf8::is_ascii_chars(r1),
        vstd::utf8::is_ascii_chars(r2),
        vstd::utf8::encode_utf8(r1) == vstd::utf8::encode_utf8(r2),
    ensures
        r1 == r2,
{
    vstd::utf8::is_ascii_chars_encode_utf8(r1);
    vstd::utf8::is_ascii_chars_encode_utf8(r2);
    assert forall|i: int| 0 <= i < r1.len() implies r1[i] == r2[i] by {
        assert(r1[i] as u8 == r2[i] as u8);
        assert('\0' <= r1[i] <= '\u{7f}' && '\0' <= r2[i] <= '\u{7f}');
    }
    assert(r1 =~= r2);
}

} // verus!
