//! Scanline de-filtering: undoing the sub, up, average and Paeth
//! filters in place, byte-wise modulo 256.

use vstd::prelude::*;
use vstd::math::abs;

verus! {

/// Byte `i` of a scanline after undoing the sub filter: each byte past
/// the first gains the already-unfiltered byte before it, modulo 256.
pub open spec fn spec_unsub(orig: Seq<u8>, i: int) -> u8
    recommends
        0 <= i < orig.len(),
    decreases i,
{
    if i <= 0 {
        orig[0]
    } else {
        ((spec_unsub(orig, i - 1) + orig[i]) % 256) as u8
    }
}

/// Undoes the sub filter in place.
pub fn reverse_sub_filter(scanline: &mut Vec<u8>)
    ensures
        final(scanline)@.len() == old(scanline)@.len(),
        forall|i: int| 0 <= i < old(scanline)@.len() ==> final(scanline)@[i] == spec_unsub(
            old(scanline)@,
            i,
        ),
{
    let ghost orig = scanline@;
    let mut i: usize = 1;
    while i < scanline.len()
        invariant
            1 <= i,
            scanline@.len() == orig.len(),
            forall|k: int| 0 <= k < i && k < orig.len() ==> scanline@[k] == spec_unsub(orig, k),
            forall|k: int| i <= k < orig.len() ==> scanline@[k] == orig[k],
        decreases scanline@.len() - i,
    {
        let v = scanline[i].wrapping_add(scanline[i - 1]);
        scanline.set(i, v);
        proof {
            assert(scanline@[i as int] == ((spec_unsub(orig, i as int - 1) + orig[i as int])
                % 256) as u8);
            assert(scanline@[i as int] == spec_unsub(orig, i as int));
        }
        i += 1;
    }
}

/// Byte `i` of a scanline after undoing the up filter: each byte gains
/// the byte above it, modulo 256.
pub open spec fn spec_unup(orig: Seq<u8>, prev: Seq<u8>, i: int) -> u8
    recommends
        0 <= i < orig.len(),
        orig.len() <= prev.len(),
{
    ((orig[i] + prev[i]) % 256) as u8
}

/// Undoes the up filter in place against the previous scanline.
pub fn reverse_up_filter(scanline: &mut Vec<u8>, prev_scanline: &Vec<u8>)
    requires
        old(scanline)@.len() <= prev_scanline@.len(),
    ensures
        final(scanline)@.len() == old(scanline)@.len(),
        forall|i: int| 0 <= i < old(scanline)@.len() ==> final(scanline)@[i] == spec_unup(
            old(scanline)@,
            prev_scanline@,
            i,
        ),
{
    let ghost orig = scanline@;
    let mut i: usize = 0;
    while i < scanline.len()
        invariant
            scanline@.len() == orig.len(),
            orig.len() <= prev_scanline@.len(),
            forall|k: int| 0 <= k < i ==> scanline@[k] == spec_unup(orig, prev_scanline@, k),
            forall|k: int| i <= k < orig.len() ==> scanline@[k] == orig[k],
        decreases scanline@.len() - i,
    {
        let v = scanline[i].wrapping_add(prev_scanline[i]);
        scanline.set(i, v);
        i += 1;
    }
}

/// Byte `i` of a scanline after undoing the average filter: each byte
/// gains the average of the byte above and the already-unfiltered byte
/// before it, truncated to a byte.
pub open spec fn spec_unavg(orig: Seq<u8>, prev: Seq<u8>, i: int) -> u8
    recommends
        0 <= i < orig.len(),
        orig.len() <= prev.len(),
    decreases i,
{
    let left: int = if i > 0 {
        spec_unavg(orig, prev, i - 1) as int
    } else {
        0
    };
    ((orig[i] + (prev[i] + left) / 2) % 256) as u8
}

/// Undoes the average filter in place against the previous scanline.
pub fn reverse_average_filter(scanline: &mut Vec<u8>, prev_scanline: &Vec<u8>)
    requires
        old(scanline)@.len() <= prev_scanline@.len(),
    ensures
        final(scanline)@.len() == old(scanline)@.len(),
        forall|i: int| 0 <= i < old(scanline)@.len() ==> final(scanline)@[i] == spec_unavg(
            old(scanline)@,
            prev_scanline@,
            i,
        ),
{
    let ghost orig = scanline@;
    let mut i: usize = 0;
    while i < scanline.len()
        invariant
            scanline@.len() == orig.len(),
            orig.len() <= prev_scanline@.len(),
            forall|k: int| 0 <= k < i ==> scanline@[k] == spec_unavg(orig, prev_scanline@, k),
            forall|k: int| i <= k < orig.len() ==> scanline@[k] == orig[k],
        decreases scanline@.len() - i,
    {
        let a = scanline[i] as u16;
        let b = prev_scanline[i] as u16;
        let c: u16 = if i > 0 {
            scanline[i - 1] as u16
        } else {
            0
        };
        let p = ((a + ((b + c) / 2)) % 256) as u8;
        proof {
            let left: int = if i > 0 {
                spec_unavg(orig, prev_scanline@, i as int - 1) as int
            } else {
                0
            };
            assert(a + ((b + c) / 2) == orig[i as int] + (prev_scanline@[i as int] + left) / 2);
        }
        scanline.set(i, p);
        proof {
            assert(scanline@[i as int] == spec_unavg(orig, prev_scanline@, i as int));
        }
        i += 1;
    }
}

/// The Paeth predictor as this codec computes it, over the left, above
/// and above-left bytes.
pub open spec fn spec_predict_paeth(a: u8, b: u8, c: u8) -> u8 {
    let p: int = a + b - c;
    let pa = abs(p - a);
    let pb = abs(p - b);
    let pc = abs(p - c);
    if pa <= pb && pa <= pc {
        b
    } else if pb <= pc {
        b
    } else {
        c
    }
}

fn predict_paeth(a: u8, b: u8, c: u8) -> (r: u8)
    ensures
        r == spec_predict_paeth(a, b, c),
{
    let p = a as i32 + b as i32 - c as i32;

    let da = p - a as i32;
    let db = p - b as i32;
    let dc = p - c as i32;
    let pa = if da < 0 {
        -da
    } else {
        da
    };
    let pb = if db < 0 {
        -db
    } else {
        db
    };
    let pc = if dc < 0 {
        -dc
    } else {
        dc
    };

    if pa <= pb && pa <= pc {
        b
    } else if pb <= pc {
        b
    } else {
        c
    }
}

/// Byte `i` of a scanline after undoing the Paeth filter: each byte
/// gains the Paeth prediction from its neighbours, modulo 256.
pub open spec fn spec_unpaeth(orig: Seq<u8>, prev: Seq<u8>, i: int) -> u8
    recommends
        0 <= i < orig.len(),
        orig.len() <= prev.len(),
    decreases i,
{
    let left: u8 = if i > 0 {
        spec_unpaeth(orig, prev, i - 1)
    } else {
        0
    };
    let above_left: u8 = if i > 0 {
        prev[i - 1]
    } else {
        0
    };
    ((orig[i] + spec_predict_paeth(left, prev[i], above_left)) % 256) as u8
}

/// Undoes the Paeth filter in place against the previous scanline.
pub fn reverse_paeth_filter(scanline: &mut Vec<u8>, prev_scanline: &Vec<u8>)
    requires
        old(scanline)@.len() <= prev_scanline@.len(),
    ensures
        final(scanline)@.len() == old(scanline)@.len(),
        forall|i: int| 0 <= i < old(scanline)@.len() ==> final(scanline)@[i] == spec_unpaeth(
            old(scanline)@,
            prev_scanline@,
            i,
        ),
{
    let ghost orig = scanline@;
    let mut i: usize = 0;
    while i < scanline.len()
        invariant
            scanline@.len() == orig.len(),
            orig.len() <= prev_scanline@.len(),
            forall|k: int| 0 <= k < i ==> scanline@[k] == spec_unpaeth(orig, prev_scanline@, k),
            forall|k: int| i <= k < orig.len() ==> scanline@[k] == orig[k],
        decreases scanline@.len() - i,
    {
        let a: u8 = if i > 0 {
            scanline[i - 1]
        } else {
            0
        };
        let b = prev_scanline[i];
        let c: u8 = if i > 0 {
            prev_scanline[i - 1]
        } else {
            0
        };
        let p = predict_paeth(a, b, c);
        let v = scanline[i].wrapping_add(p);
        scanline.set(i, v);
        i += 1;
    }
}

} // verus!
