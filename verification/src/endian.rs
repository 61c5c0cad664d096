//! Big-endian encoding of 32-bit integers, as the chunk format uses for
//! every multi-byte field.

use vstd::prelude::*;

verus! {

/// The four big-endian bytes of `x`, most significant first.
pub open spec fn spec_u32_to_be(x: u32) -> Seq<u8> {
    seq![
        (x / 0x1000000) as u8,
        ((x / 0x10000) % 0x100) as u8,
        ((x / 0x100) % 0x100) as u8,
        (x % 0x100) as u8,
    ]
}

/// The value of four bytes read as one big-endian 32-bit integer.
pub open spec fn spec_u32_from_be(s: Seq<u8>) -> u32
    recommends
        s.len() == 4,
{
    (s[0] * 0x1000000 + s[1] * 0x10000 + s[2] * 0x100 + s[3]) as u32
}

/// Reading four bytes big-endian and writing the value back yields the
/// same four bytes.
pub proof fn lemma_u32_be_round_trip(s: Seq<u8>)
    requires
        s.len() == 4,
    ensures
        spec_u32_to_be(spec_u32_from_be(s)) == s,
{
    let x = spec_u32_from_be(s);
    assert(x == s[0] * 0x1000000 + s[1] * 0x10000 + s[2] * 0x100 + s[3]);
    assert(x / 0x1000000 == s[0] && (x / 0x10000) % 0x100 == s[1] && (x / 0x100) % 0x100 == s[2]
        && x % 0x100 == s[3]) by (nonlinear_arith)
        requires
            x == s[0] * 0x1000000 + s[1] * 0x10000 + s[2] * 0x100 + s[3],
            s[0] <= 255 && s[1] <= 255 && s[2] <= 255 && s[3] <= 255,
    ;
    assert(spec_u32_to_be(x) =~= s);
}

/// Assembles a 32-bit value from its four big-endian bytes.
pub fn u32_from_be_bytes(b0: u8, b1: u8, b2: u8, b3: u8) -> (r: u32)
    ensures
        r == spec_u32_from_be(seq![b0, b1, b2, b3]),
{
    (b0 as u32) * 0x1000000 + (b1 as u32) * 0x10000 + (b2 as u32) * 0x100 + (b3 as u32)
}

/// Splits a 32-bit value into its four big-endian bytes.
pub fn u32_to_be_vec(x: u32) -> (r: Vec<u8>)
    ensures
        r@ == spec_u32_to_be(x),
{
    let mut r: Vec<u8> = Vec::new();
    r.push((x / 0x1000000) as u8);
    r.push(((x / 0x10000) % 0x100) as u8);
    r.push(((x / 0x100) % 0x100) as u8);
    r.push((x % 0x100) as u8);
    proof {
        assert(r@ =~= spec_u32_to_be(x));
    }
    r
}

} // verus!
