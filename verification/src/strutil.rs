//! Small helpers for turning bytes into text: UTF-8 interpretation and
//! decimal rendering of integers.

use vstd::prelude::*;
use vstd::utf8::{decode_utf8, encode_utf8, encode_utf8_decode_utf8, encode_utf8_valid_utf8,
    is_ascii_chars, is_ascii_chars_encode_utf8, valid_utf8};

verus! {

/// Whether the sequence holds a zero byte anywhere.
pub open spec fn has_zero(s: Seq<u8>) -> bool {
    exists|j: int| 0 <= j < s.len() && s[j] == 0
}

/// Whether `j` is the position of the first zero byte of `s`.
pub open spec fn is_first_zero(s: Seq<u8>, j: int) -> bool {
    &&& 0 <= j < s.len()
    &&& s[j] == 0
    &&& forall|k: int| 0 <= k < j ==> s[k] != 0
}

/// The position of the first zero byte of `s`.
pub open spec fn first_zero(s: Seq<u8>) -> int {
    choose|j: int| is_first_zero(s, j)
}

/// At most one position is the first zero, and where one exists it is
/// what `first_zero` names.
pub proof fn lemma_first_zero(s: Seq<u8>, j: int)
    requires
        is_first_zero(s, j),
    ensures
        has_zero(s),
        first_zero(s) == j,
{
    let j2 = first_zero(s);
    assert(is_first_zero(s, j2));
    if j < j2 {
        assert(s[j] != 0);
    }
    if j2 < j {
        assert(s[j2] != 0);
    }
}

/// Finds the position of the first zero byte, if any.
pub(crate) fn find_zero(v: &Vec<u8>) -> (r: Option<usize>)
    ensures
        r matches Some(j) ==> is_first_zero(v@, j as int) && first_zero(v@) == j as int,
        r is None <==> !has_zero(v@),
{
    let mut i: usize = 0;
    while i < v.len()
        invariant
            i <= v.len(),
            forall|k: int| 0 <= k < i ==> v@[k] != 0,
        decreases v.len() - i,
    {
        if v[i] == 0 {
            proof {
                lemma_first_zero(v@, i as int);
            }
            return Some(i);
        }
        i += 1;
    }
    None
}

/// Copies a byte vector.
pub(crate) fn clone_bytes(v: &Vec<u8>) -> (r: Vec<u8>)
    ensures
        r@ == v@,
{
    let mut r: Vec<u8> = Vec::new();
    let mut i: usize = 0;
    while i < v.len()
        invariant
            i <= v.len(),
            r@ == v@.subrange(0, i as int),
        decreases v.len() - i,
    {
        r.push(v[i]);
        i += 1;
        proof {
            assert(r@ =~= v@.subrange(0, i as int));
        }
    }
    proof {
        assert(r@ =~= v@);
    }
    r
}

/// Copies a range of a byte vector.
pub(crate) fn copy_range(v: &Vec<u8>, start: usize, end: usize) -> (r: Vec<u8>)
    requires
        start <= end <= v@.len(),
    ensures
        r@ == v@.subrange(start as int, end as int),
{
    let mut r: Vec<u8> = Vec::new();
    let mut i: usize = start;
    while i < end
        invariant
            start <= i <= end <= v@.len(),
            r@ == v@.subrange(start as int, i as int),
        decreases end - i,
    {
        r.push(v[i]);
        i += 1;
        proof {
            assert(r@ =~= v@.subrange(start as int, i as int));
        }
    }
    r
}

/// The characters of a sequence of ASCII bytes, one character per byte.
pub open spec fn ascii_chars_of(s: Seq<u8>) -> Seq<char> {
    Seq::new(s.len(), |i: int| s[i] as char)
}

/// Relies on `String::from_utf8`: it succeeds exactly on well-formed UTF-8
/// input, and the resulting string holds the decoding of those bytes.
#[verifier::external_body]
pub(crate) fn string_from_utf8(v: Vec<u8>) -> (r: Option<String>)
    ensures
        r matches Some(s) ==> valid_utf8(v@) && s@ == decode_utf8(v@),
        r is None ==> !valid_utf8(v@),
{
    match String::from_utf8(v) {
        Ok(s) => Some(s),
        Err(_) => None,
    }
}

/// ASCII bytes are well-formed UTF-8 and decode one character per byte.
pub proof fn lemma_ascii_decode(v: Seq<u8>)
    requires
        forall|i: int| 0 <= i < v.len() ==> v[i] < 0x80,
    ensures
        valid_utf8(v),
        decode_utf8(v) == ascii_chars_of(v),
{
    let chars = ascii_chars_of(v);
    assert(is_ascii_chars(chars)) by {
        assert forall|i: int| 0 <= i < chars.len() implies '\0' <= #[trigger] chars[i]
            <= '\u{7f}' by {
            assert(v[i] < 0x80);
        }
    }
    is_ascii_chars_encode_utf8(chars);
    assert(encode_utf8(chars) =~= v);
    encode_utf8_valid_utf8(chars);
    encode_utf8_decode_utf8(chars);
}

/// Turns a vector of ASCII bytes into the string with one character per
/// byte.
pub(crate) fn ascii_to_string(v: Vec<u8>) -> (r: String)
    requires
        forall|i: int| 0 <= i < v@.len() ==> v@[i] < 0x80,
    ensures
        r@ == ascii_chars_of(v@),
{
    proof {
        lemma_ascii_decode(v@);
    }
    match string_from_utf8(v) {
        Some(s) => s,
        None => {
            proof {
                assert(false);
            }
            String::new()
        },
    }
}

/// The decimal digits of `n`, most significant first, as ASCII bytes.
pub open spec fn spec_dec_bytes(n: int) -> Seq<u8>
    recommends
        n >= 0,
    decreases n,
{
    if n < 10 {
        seq![(48 + if n >= 0 { n } else { 0 }) as u8]
    } else {
        spec_dec_bytes(n / 10) + seq![(48 + n % 10) as u8]
    }
}

/// The decimal rendering of `n` as characters.
pub open spec fn spec_dec_chars(n: int) -> Seq<char> {
    ascii_chars_of(spec_dec_bytes(n))
}

/// Appends the decimal digits of `n` to `out`.
fn push_dec_bytes(n: u64, out: &mut Vec<u8>)
    ensures
        final(out)@ == old(out)@ + spec_dec_bytes(n as int),
    decreases n,
{
    if n >= 10 {
        push_dec_bytes(n / 10, out);
    }
    out.push((n % 10) as u8 + 48);
    proof {
        assert(final(out)@ =~= old(out)@ + spec_dec_bytes(n as int));
    }
}

/// Renders `n` in decimal.
pub fn u64_to_dec_string(n: u64) -> (r: String)
    ensures
        r@ == spec_dec_chars(n as int),
{
    let mut out: Vec<u8> = Vec::new();
    push_dec_bytes(n, &mut out);
    proof {
        lemma_dec_bytes_ascii(n as int);
    }
    ascii_to_string(out)
}

/// Renders `n` in decimal.
pub fn u32_to_dec_string(n: u32) -> (r: String)
    ensures
        r@ == spec_dec_chars(n as int),
{
    u64_to_dec_string(n as u64)
}

/// Renders `n` in decimal.
pub fn usize_to_dec_string(n: usize) -> (r: String)
    ensures
        r@ == spec_dec_chars(n as int),
{
    u64_to_dec_string(n as u64)
}

/// Every decimal digit byte is an ASCII digit.
pub proof fn lemma_dec_bytes_ascii(n: int)
    requires
        n >= 0,
    ensures
        forall|i: int| 0 <= i < spec_dec_bytes(n).len() ==> 48 <= #[trigger] spec_dec_bytes(n)[i]
            <= 57,
    decreases n,
{
    if n >= 10 {
        lemma_dec_bytes_ascii(n / 10);
        let pre = spec_dec_bytes(n / 10);
        let whole = spec_dec_bytes(n);
        assert forall|i: int| 0 <= i < whole.len() implies 48 <= #[trigger] whole[i] <= 57 by {
            if i < pre.len() {
                assert(whole[i] == pre[i]);
            } else {
                assert(whole[i] == (48 + n % 10) as u8);
            }
        }
    }
}

} // verus!
