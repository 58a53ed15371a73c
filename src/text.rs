use encoding::all::GB18030;
use encoding::{EncoderTrap, Encoding};
use vstd::prelude::*;

verus! {

/// The GB18030 encoding of a character sequence.
pub uninterp spec fn gb18030_of(s: Seq<char>) -> Seq<u8>;

/// Relies on the `encoding` crate's GB18030 `Encoding::encode`. Its encoder
/// maps every Unicode scalar value and never reports an error, so the strict
/// trap never fires.
#[verifier::external_body]
fn encode_gb18030(s: &str) -> (r: Vec<u8>)
    ensures
        r@ == gb18030_of(s@),
{
    match GB18030.encode(s, EncoderTrap::Strict) {
        Ok(bytes) => bytes,
        Err(_) => Vec::new(),
    }
}

/// `bytes` followed by one NUL byte.
pub fn append_nul(bytes: Vec<u8>) -> (r: Vec<u8>)
    ensures
        r@ == bytes@.push(0),
{
    let mut r = bytes;
    r.push(0);
    r
}

/// The GB18030 encoding of `text`, NUL-terminated, as the SDK's text
/// entry points expect it.
pub fn gb18030_with_nul(text: &str) -> (r: Vec<u8>)
    ensures
        r@ == gb18030_of(text@).push(0),
{
    append_nul(encode_gb18030(text))
}

} // verus!
