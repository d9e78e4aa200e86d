//! Bit-level building blocks of the compatibility checks.
use vstd::prelude::*;

verus! {

broadcast use vstd::std_specs::bits::group_bits_axioms;

/// Bit `i` of `v` is set.
pub open spec fn bit_set(v: u64, i: u64) -> bool {
    (v >> i) & 1 == 1
}

/// The bits that are set in `src` but clear in `dest`.
pub open spec fn only_in(src: u64, dest: u64) -> u64 {
    src & !dest
}

/// The mask with exactly the bits `lo..=hi` set (empty when `lo > hi`); meaningful for `hi < 64`.
pub open spec fn range_mask(lo: u64, hi: u64) -> u64 {
    if lo <= hi {
        (0xffff_ffff_ffff_ffffu64 >> ((63 - hi) as u64)) & (0xffff_ffff_ffff_ffffu64 << lo)
    } else {
        0
    }
}

/// The outcome of [`check_subset`] on the given values.
pub open spec fn subset_result(src_val: u64, dest_val: u64) -> Result<(), u64> {
    if only_in(src_val, dest_val) == 0 {
        Ok(())
    } else {
        Err(only_in(src_val, dest_val))
    }
}

/// Check that no bit is set only in `src_val`.
///
/// Upon error the bitset of the bits that are set only in `src_val` is returned.
pub fn check_subset(src_val: u64, dest_val: u64) -> (r: Result<(), u64>)
    ensures
        r == subset_result(src_val, dest_val),
{
    let only_in_src_val = src_val & (src_val ^ dest_val);
    assert(src_val & (src_val ^ dest_val) == src_val & !dest_val) by (bit_vector);
    if only_in_src_val != 0 {
        Err(only_in_src_val)
    } else {
        Ok(())
    }
}

/// `a` if `condition` else `b`, selected without branching.
pub fn conditional_select(a: u32, b: u32, condition: bool) -> (r: u32)
    ensures
        r == if condition { a } else { b },
{
    let c: u32 = condition as u32;
    let a_mask = 0u32.wrapping_sub(c);
    let b_mask = !a_mask;
    proof {
        if condition {
            assert(a_mask == 0xffff_ffffu32);
        } else {
            assert(a_mask == 0u32);
        }
        assert((a & 0xffff_ffffu32) | (b & !0xffff_ffffu32) == a) by (bit_vector);
        assert((a & 0u32) | (b & !0u32) == b) by (bit_vector);
    }
    (a & a_mask) | (b & b_mask)
}

/// The mask with the bits `lo..=hi` set, built one bit at a time.
pub fn bit_range_mask(lo: u8, hi: u8) -> (r: u64)
    requires
        hi < 64,
    ensures
        r == range_mask(lo as u64, hi as u64),
{
    if lo > hi {
        return 0;
    }
    let mut acc: u64 = 0;
    let mut next: u8 = lo;
    while next <= hi
        invariant
            lo <= next <= hi + 1,
            hi < 64,
            acc == (if next == lo { 0u64 } else { range_mask(lo as u64, (next - 1) as u64) }),
        decreases hi + 1 - next,
    {
        let n = next as u64;
        let l = lo as u64;
        proof {
            if next == lo {
                assert(l < 64 ==> 0u64 | (1u64 << l) == range_mask(l, l)) by (bit_vector);
            } else {
                assert(l < n && n < 64 ==> range_mask(l, (n - 1) as u64) | (1u64 << n) == range_mask(l, n))
                    by (bit_vector);
            }
        }
        acc = acc | (1u64 << n);
        assert(acc == range_mask(l, n));
        next = next + 1;
        assert(((next - 1) as u64) == n);
    }
    acc
}

/// `positions` lists exactly the positions of the set bits of `bits`, in ascending order.
pub open spec fn set_bit_positions(bits: u64, positions: Seq<u8>) -> bool {
    &&& forall|k: int| 0 <= k < positions.len() ==> (positions[k] as u64) < 64 && bit_set(bits, positions[k] as u64)
    &&& forall|i: u64| i < 64 && bit_set(bits, i) ==> positions.contains(i as u8)
    &&& forall|k1: int, k2: int| 0 <= k1 < k2 < positions.len() ==> positions[k1] < positions[k2]
}

/// The positions of the set bits of `bits`, in ascending order: callers visit each position
/// once, lowest first.
pub fn for_each_bitpos(bits: u64) -> (r: Vec<u8>)
    ensures
        set_bit_positions(bits, r@),
{
    let mut rest = bits;
    let mut out: Vec<u8> = Vec::new();
    while rest != 0
        invariant
            forall|i: u64| i < 64 ==> (bit_set(bits, i) <==> (bit_set(rest, i) || out@.contains(i as u8))),
            forall|k: int| 0 <= k < out.len() ==> (out[k] as u64) < 64 && bit_set(bits, out[k] as u64),
            forall|k: int, i: u64| 0 <= k < out.len() && i < 64 && bit_set(rest, i) ==> (out[k] as u64) < i,
            forall|k1: int, k2: int| 0 <= k1 < k2 < out.len() ==> out[k1] < out[k2],
        decreases rest,
    {
        let pos = rest.trailing_zeros();
        let p = pos as u64;
        let lsb = rest & 0u64.wrapping_sub(rest);
        proof {
            assert(p < 64);
            assert(bit_set(rest, p));
            assert(rest << ((64 - p) as u64) == 0);
            lemma_lowest_bit(rest, p);
            assert(lsb == 1u64 << p);
        }
        let ghost old_out = out@;
        out.push(pos as u8);
        rest = rest ^ lsb;
        proof {
            assert forall|i: u64| i < 64 implies (bit_set(bits, i) <==> (bit_set(rest, i) || out@.contains(i as u8))) by {
                if i == p {
                    assert(out@[out@.len() - 1] == i as u8);
                } else {
                    assert(i != p ==> (out@.contains(i as u8) <==> old_out.contains(i as u8))) by {
                        if out@.contains(i as u8) {
                            let k = choose|k: int| 0 <= k < out@.len() && out@[k] == i as u8;
                            if k < old_out.len() {
                                assert(old_out[k] == i as u8);
                            }
                        }
                        if old_out.contains(i as u8) {
                            let k = choose|k: int| 0 <= k < old_out.len() && old_out[k] == i as u8;
                            assert(out@[k] == i as u8);
                        }
                    }
                }
            }
        }
    }
    assert forall|i: u64| i < 64 implies !bit_set(0, i) by {
        assert((0u64 >> i) & 1 == 0) by (bit_vector);
    }
    out
}

/// The lowest set bit of `rest`, isolated by `rest & -rest`, is bit `p`; clearing it keeps every other bit.
proof fn lemma_lowest_bit(rest: u64, p: u64)
    requires
        rest != 0,
        p < 64,
        bit_set(rest, p),
        rest << ((64 - p) as u64) == 0,
    ensures
        rest & vstd::wrapping::u64_specs::wrapping_sub(0, rest) == 1u64 << p,
        forall|i: u64| i < 64 ==> (#[trigger] bit_set(rest ^ (1u64 << p), i) <==> (bit_set(rest, i) && i != p)),
        rest ^ (1u64 << p) < rest,
{
    assert(!rest + 1 == 0x1_0000_0000_0000_0000int - rest) by (bit_vector);
    assert(vstd::wrapping::u64_specs::wrapping_sub(0, rest) == (!rest + 1) as u64);
    assert(p < 64 && (rest >> p) & 1 == 1 && rest << ((64 - p) as u64) == 0 ==> rest & ((!rest + 1) as u64) == 1u64 << p)
        by (bit_vector);
    assert(p < 64 && (rest >> p) & 1 == 1 ==> rest ^ (1u64 << p) < rest) by (bit_vector);
    assert forall|i: u64| i < 64 implies (#[trigger] bit_set(rest ^ (1u64 << p), i) <==> (bit_set(rest, i) && i != p)) by {
        assert(i < 64 && p < 64 && (rest >> p) & 1 == 1 ==> ((((rest ^ (1u64 << p)) >> i) & 1 == 1) <==> (((rest >> i) & 1 == 1) && i != p)))
            by (bit_vector);
    }
}

} // verus!
