use vstd::prelude::*;
use vstd::utf8::encode_utf8;

verus! {

/// Number of bytes in the UTF-8 encoding of a character sequence.
pub open spec fn utf8_len(s: Seq<char>) -> nat {
    encode_utf8(s).len()
}

/// Estimated token count of a text of `bytes` bytes: one token per four
/// bytes, rounded up, saturating at `u32::MAX`.
pub open spec fn token_estimate(bytes: nat) -> nat {
    let q = if bytes % 4 == 0 { bytes / 4 } else { bytes / 4 + 1 };
    if q > u32::MAX { u32::MAX as nat } else { q }
}

/// Rough token count of `text`: about four bytes per token, rounded up.
pub fn estimate_token_count(text: &str) -> (tokens: u32)
    ensures
        tokens == token_estimate(utf8_len(text@)),
{
    let len: usize = text.as_bytes().len();
    let q: usize = if len % 4 == 0 { len / 4 } else { len / 4 + 1 };
    if q > (u32::MAX as usize) {
        u32::MAX
    } else {
        q as u32
    }
}

/// The estimate is the byte count divided by four, rounded up: four times it
/// covers the bytes, and one token fewer would not; only texts beyond
/// `4 * u32::MAX` bytes are capped, at `u32::MAX`.
pub proof fn lemma_token_estimate_rounds_up(bytes: nat)
    ensures
        bytes <= 4 * (u32::MAX as nat) ==> 4 * token_estimate(bytes) >= bytes && 4 * (
        token_estimate(bytes) - 1) < bytes,
        bytes > 4 * (u32::MAX as nat) ==> token_estimate(bytes) == u32::MAX,
{
}

} // verus!
