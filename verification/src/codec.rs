//! Frame bytes as text, by the standard base64 alphabet with padding.

use vstd::prelude::*;

verus! {

/// The text that the standard base64 engine writes for these bytes.
pub uninterp spec fn base64_text(bytes: Seq<u8>) -> Seq<char>;

/// The bytes that the standard base64 engine reads from this text, `None`
/// where the text is not base64.
pub uninterp spec fn base64_bytes(text: Seq<char>) -> Option<Seq<u8>>;

/// A run of `len` bytes can be encoded: the length of its text, four
/// characters for every three bytes begun, fits a single allocation.
pub open spec fn encodable(len: nat) -> bool {
    len / 3 * 4 + 4 <= isize::MAX
}

/// `Engine::encode` of `base64::engine::general_purpose::STANDARD`. The
/// text depends on the bytes alone, and decoding it gives the bytes back.
/// The call panics where the length of the text cannot be computed or
/// allocated, which `requires` leaves out.
#[verifier::external_body]
pub(crate) fn standard_encode(bytes: &[u8]) -> (text: String)
    requires
        encodable(bytes@.len()),
    ensures
        text@ == base64_text(bytes@),
        base64_bytes(text@) == Some(bytes@),
{
    base64::Engine::encode(&base64::engine::general_purpose::STANDARD, bytes)
}

/// `Engine::decode` of `base64::engine::general_purpose::STANDARD`: the
/// bytes of a text, or `None` where the engine rejects the text. The result
/// depends on the text alone.
#[verifier::external_body]
pub(crate) fn standard_decode(text: &str) -> (r: Option<Vec<u8>>)
    ensures
        match r {
            Some(bytes) => base64_bytes(text@) == Some(bytes@),
            None => base64_bytes(text@).is_none(),
        },
{
    base64::Engine::decode(&base64::engine::general_purpose::STANDARD, text).ok()
}

/// Whether a run of `len` bytes can be encoded.
pub fn can_encode(len: usize) -> (b: bool)
    ensures
        b == encodable(len as nat),
{
    len / 3 <= (isize::MAX as usize - 4) / 4
}

} // verus!
