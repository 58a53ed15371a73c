use vstd::prelude::*;
use vstd::string::StringSliceAdditionalSpecFns;

use crate::text::append_nul;

verus! {

/// Index of the first NUL byte of `b`, or its length when it holds none.
pub open spec fn nul_index(b: Seq<u8>) -> nat
    decreases b.len(),
{
    if b.len() == 0 || b[0] == 0 {
        0
    } else {
        1 + nul_index(b.drop_first())
    }
}

/// The C string held by a buffer: its bytes up to, not including, the first
/// NUL; the whole buffer when it holds no NUL.
pub open spec fn c_string(b: Seq<u8>) -> Seq<u8> {
    b.take(nul_index(b) as int)
}

/// Each byte read as the character with the same code point.
pub open spec fn latin1_chars(b: Seq<u8>) -> Seq<char> {
    b.map_values(|x: u8| x as char)
}

/// A NUL index is the first position holding a zero byte.
pub proof fn lemma_nul_index_is_first_zero(b: Seq<u8>, k: int)
    requires
        0 <= k <= b.len(),
        forall|j: int| 0 <= j < k ==> b[j] != 0,
        k == b.len() || b[k] == 0,
    ensures
        nul_index(b) == k,
    decreases k,
{
    if k > 0 {
        let t = b.drop_first();
        assert forall|j: int| 0 <= j < k - 1 implies t[j] != 0 by {
            assert(t[j] == b[j + 1]);
        }
        if k < b.len() {
            assert(t[k - 1] == b[k]);
        }
        lemma_nul_index_is_first_zero(t, k - 1);
    }
}

/// The decoded text of a buffer never holds a NUL and never reaches past the
/// buffer's end.
pub proof fn lemma_c_string_within_buffer(b: Seq<u8>)
    ensures
        nul_index(b) <= b.len(),
        c_string(b).len() <= b.len(),
        forall|j: int| 0 <= j < c_string(b).len() ==> c_string(b)[j] == b[j] && b[j] != 0,
        nul_index(b) < b.len() ==> b[nul_index(b) as int] == 0,
    decreases b.len(),
{
    if b.len() > 0 && b[0] != 0 {
        let t = b.drop_first();
        lemma_c_string_within_buffer(t);
        assert forall|j: int| 0 <= j < c_string(b).len() implies c_string(b)[j] == b[j] && b[j]
            != 0 by {
            if j > 0 {
                assert(b[j] == t[j - 1]);
            }
        }
        if nul_index(b) < b.len() {
            assert(b[nul_index(b) as int] == t[nul_index(t) as int]);
        }
    }
}

/// The bytes of `s` followed by one NUL byte.
pub fn with_nul(s: &str) -> (r: Vec<u8>)
    ensures
        r@ == s.spec_bytes().push(0),
{
    let bytes = s.as_bytes();
    let mut r: Vec<u8> = Vec::new();
    let mut i: usize = 0;
    while i < bytes.len()
        invariant
            bytes@ == s.spec_bytes(),
            i <= bytes@.len(),
            r@ == bytes@.take(i as int),
        decreases bytes@.len() - i,
    {
        r.push(bytes[i]);
        i = i + 1;
        assert(r@ =~= bytes@.take(i as int));
    }
    assert(r@ =~= bytes@);
    append_nul(r)
}

/// The bytes of a buffer up to its first NUL, reading no byte past the first
/// NUL nor past the buffer's end.
pub fn c_string_bytes(buf: &[u8]) -> (r: Vec<u8>)
    ensures
        r@ == c_string(buf@),
{
    let mut r: Vec<u8> = Vec::new();
    let mut i: usize = 0;
    while i < buf.len() && buf[i] != 0
        invariant
            i <= buf@.len(),
            r@ == buf@.take(i as int),
            forall|j: int| 0 <= j < i ==> buf@[j] != 0,
        decreases buf@.len() - i,
    {
        r.push(buf[i]);
        i = i + 1;
        assert(r@ =~= buf@.take(i as int));
    }
    proof {
        lemma_nul_index_is_first_zero(buf@, i as int);
    }
    r
}

/// Relies on `String::push`: the character is appended at the end.
#[verifier::external_body]
fn push_char(s: &mut String, c: char)
    ensures
        final(s)@ == old(s)@.push(c),
{
    s.push(c)
}

/// Reads each byte as the character with the same code point.
pub fn latin1_string(bytes: &[u8]) -> (r: String)
    ensures
        r@ == latin1_chars(bytes@),
{
    let mut r = String::new();
    let mut i: usize = 0;
    while i < bytes.len()
        invariant
            i <= bytes@.len(),
            r@ == latin1_chars(bytes@.take(i as int)),
        decreases bytes@.len() - i,
    {
        let c: char = bytes[i] as char;
        push_char(&mut r, c);
        i = i + 1;
        assert(r@ =~= latin1_chars(bytes@.take(i as int)));
    }
    assert(bytes@.take(i as int) =~= bytes@);
    r
}

/// The text of a buffer filled by the SDK: the bytes before the first NUL,
/// each read as one character.
pub fn decode_c_buffer(buf: &[u8]) -> (r: String)
    ensures
        r@ == latin1_chars(c_string(buf@)),
{
    let bytes = c_string_bytes(buf);
    latin1_string(bytes.as_slice())
}

} // verus!
