//! What each compatibility check decides, stated bit by bit over the values it compares.
//!
//! Each law names the bits and fields of the MSR that the check compares by their numbers, and
//! says which results the check gives in terms of those bits of the two values alone.
use crate::bits::{bit_set, only_in, range_mask};
use crate::checks::{
    arch_capabilities_result, HI_HALF, LO_HALF, cr_fixed0_result, ctls_result, ept_vpid_result, eq_violation,
    leq_violation, subset_violation, vmcs_enum_result, vmx_basic_result, vmx_misc_result,
    ARCH_CAPABILITIES_SUBSET_BITS, EPT_VPID_SUBSET_BITS, VMX_BASIC_EQUAL_BITS,
    VMX_BASIC_SUBSET_BITS, VMX_MISC_SUBSET_BITS,
};
use crate::laws::lemma_zero_iff_no_bit_set;
use vstd::prelude::*;

verus! {

/// Two values are equal exactly when they agree on all 64 bits.
pub proof fn lemma_equal_iff_same_bits(x: u64, y: u64)
    ensures
        x == y <==> forall|i: u64| i < 64 ==> (#[trigger] bit_set(x, i) <==> bit_set(y, i)),
{
    lemma_zero_iff_no_bit_set(x ^ y);
    assert forall|i: u64| i < 64 implies (#[trigger] bit_set(x ^ y, i) <==> (bit_set(x, i) != bit_set(y, i))) by {
        assert(i < 64 ==> ((((x ^ y) >> i) & 1 == 1) <==> (((x >> i) & 1 == 1) != ((y >> i) & 1 == 1)))) by (bit_vector);
    }
    assert(x ^ y == 0 <==> x == y) by (bit_vector);
}

/// The bits of `v & m` are the bits of `v` that `m` selects.
proof fn lemma_masked_bits(v: u64, m: u64)
    ensures
        forall|i: u64| i < 64 ==> (#[trigger] bit_set(v & m, i) <==> (bit_set(m, i) && bit_set(v, i))),
{
    assert forall|i: u64| i < 64 implies (#[trigger] bit_set(v & m, i) <==> (bit_set(m, i) && bit_set(v, i))) by {
        assert(i < 64 ==> ((((v & m) >> i) & 1 == 1) <==> (((m >> i) & 1 == 1) && ((v >> i) & 1 == 1)))) by (bit_vector);
    }
}

/// A subset check under a mask: it fails exactly on the selected bits set in `s` and clear in `d`.
proof fn lemma_masked_subset(s: u64, d: u64, m: u64, selected: spec_fn(u64) -> bool)
    requires
        forall|i: u64| i < 64 ==> (#[trigger] bit_set(m, i) <==> selected(i)),
    ensures
        subset_violation(s, d, m) is None <==> forall|i: u64|
            i < 64 && selected(i) && #[trigger] bit_set(s, i) ==> bit_set(d, i),
        subset_violation(s, d, m) matches Some(b) ==> forall|i: u64|
            i < 64 ==> (#[trigger] bit_set(b, i) <==> (selected(i) && bit_set(s, i) && !bit_set(d, i))),
{
    let x = only_in(s & m, d & m);
    assert forall|i: u64| i < 64 implies (#[trigger] bit_set(x, i) <==> (selected(i) && bit_set(s, i) && !bit_set(d, i))) by {
        assert(i < 64 ==> ((((s & m) & !(d & m)) >> i) & 1 == 1 <==> (((m >> i) & 1 == 1) && ((s >> i) & 1 == 1)
            && !((d >> i) & 1 == 1)))) by (bit_vector);
        assert(bit_set(m, i) <==> selected(i));
    }
    lemma_zero_iff_no_bit_set(x);
    if !(forall|i: u64| i < 64 && selected(i) && #[trigger] bit_set(s, i) ==> bit_set(d, i)) {
        let i = choose|i: u64| !(i < 64 && selected(i) && #[trigger] bit_set(s, i) ==> bit_set(d, i));
        assert(bit_set(x, i));
    }
}

/// An equality check under a mask: it fails exactly when a selected bit differs, and reports
/// the selected bits of both values.
proof fn lemma_masked_equal(s: u64, d: u64, m: u64, selected: spec_fn(u64) -> bool)
    requires
        forall|i: u64| i < 64 ==> (#[trigger] bit_set(m, i) <==> selected(i)),
    ensures
        eq_violation(s, d, m) is None <==> forall|i: u64|
            i < 64 && selected(i) ==> (#[trigger] bit_set(s, i) <==> bit_set(d, i)),
        eq_violation(s, d, m) matches Some((a, b)) ==> forall|i: u64|
            i < 64 ==> (#[trigger] bit_set(a, i) <==> (selected(i) && bit_set(s, i)))
                && (bit_set(b, i) <==> (selected(i) && bit_set(d, i))),
{
    lemma_masked_bits(s, m);
    lemma_masked_bits(d, m);
    lemma_equal_iff_same_bits(s & m, d & m);
    if !(forall|i: u64| i < 64 && selected(i) ==> (#[trigger] bit_set(s, i) <==> bit_set(d, i))) {
        let i = choose|i: u64| !(i < 64 && selected(i) ==> (#[trigger] bit_set(s, i) <==> bit_set(d, i)));
        assert(bit_set(s & m, i) != bit_set(d & m, i));
    }
    if forall|i: u64| i < 64 && selected(i) ==> (#[trigger] bit_set(s, i) <==> bit_set(d, i)) {
        assert forall|i: u64| i < 64 implies (#[trigger] bit_set(s & m, i) <==> bit_set(d & m, i)) by {
            assert(bit_set(m, i) <==> selected(i));
        }
    }
}

/// The bits of IA32_ARCH_CAPABILITIES that its check compares: RDCL_NO (0), IBRS_ALL (1),
/// SKIP_L1DFL_VMENTRY (3), SSB_NO (4), MDS_NO (5), TSX_CTRL (7), TAA_NO (8), MCU_CONTROL (9),
/// MISC_PACKAGE_CTLS (10), ENERGY_FILTERING_CTL (11), DOITM (12), MCU_ENUMERATION (16),
/// FB_CLEAR (17), FB_CLEAR_CTRL (18), BHI_NO (20), XAPIC_DISABLE_STATUS (21),
/// MCU_EXTENDED_SERVICE (22), OVERCLOCKING_STATUS (23), PBRSB_NO (24), GDS_CTRL (25), GDS_NO (26),
/// RFDS_NO (27), RFDS_CLEAR (28), IGN_UMONITOR_SUPPORT (29), MON_UMON_MITG_SUPPORT (30) and
/// PBOPT_SUPPORT (32).
pub open spec fn arch_capabilities_checked_bit(i: u64) -> bool {
    ||| i == 0 || i == 1 || i == 3 || i == 4 || i == 5 || i == 7 || i == 8 || i == 9 || i == 10
    ||| i == 11 || i == 12 || i == 16 || i == 17 || i == 18 || i == 20 || i == 21 || i == 22
    ||| i == 23 || i == 24 || i == 25 || i == 26 || i == 27 || i == 28 || i == 29 || i == 30
    ||| i == 32
}

/// The IA32_ARCH_CAPABILITIES check fails exactly when one of the compared bits is set in the
/// source value but clear in the destination value; it then reports exactly those bits.
pub proof fn lemma_arch_capabilities_check(s: u64, d: u64)
    ensures
        arch_capabilities_result(s, d) is Ok <==> forall|i: u64|
            i < 64 && arch_capabilities_checked_bit(i) && #[trigger] bit_set(s, i) ==> bit_set(d, i),
        arch_capabilities_result(s, d) matches Err(m) ==> {
            &&& m.src_val == s && m.dest_val == d && m.unequal is None && m.exceeds is None
            &&& m.bits_only_in_src matches Some(b) && forall|i: u64|
                i < 64 ==> (#[trigger] bit_set(b, i) <==> (arch_capabilities_checked_bit(i) && bit_set(s, i)
                    && !bit_set(d, i)))
        },
{
    assert forall|i: u64| i < 64 implies (#[trigger] bit_set(ARCH_CAPABILITIES_SUBSET_BITS, i) <==> arch_capabilities_checked_bit(i)) by {
        assert(i < 64 ==> (((ARCH_CAPABILITIES_SUBSET_BITS >> i) & 1 == 1) <==> (i == 0 || i == 1 || i == 3 || i == 4
            || i == 5 || i == 7 || i == 8 || i == 9 || i == 10 || i == 11 || i == 12 || i == 16 || i == 17 || i == 18
            || i == 20 || i == 21 || i == 22 || i == 23 || i == 24 || i == 25 || i == 26 || i == 27 || i == 28
            || i == 29 || i == 30 || i == 32))) by (bit_vector);
    }
    lemma_masked_subset(s, d, ARCH_CAPABILITIES_SUBSET_BITS, |i: u64| arch_capabilities_checked_bit(i));
}

/// Bits 0 to 63 of `v` hold the same as `v >> lo` masked to `width` bits, shifted back, for a
/// mask `m` of the bits `lo..lo + width`: comparing `v & m` is comparing the field.
proof fn lemma_field_compare(s: u64, d: u64, m: u64, lo: u64, ones: u64)
    requires
        lo < 64,
        m == ones << lo,
        ones >> (64 - lo) as u64 == 0,
        ones == 7 || ones == 0x1ff || ones == 0x3f,
    ensures
        s & m == ((s >> lo) & ones) << lo,
        d & m == ((d >> lo) & ones) << lo,
        (s & m > d & m) <==> ((s >> lo) & ones > (d >> lo) & ones),
{
    assert(lo < 64 && m == ones << lo && (ones == 7 || ones == 0x1ff || ones == 0x3f) && ones >> (64 - lo) as u64 == 0 ==> {
        &&& s & m == ((s >> lo) & ones) << lo
        &&& d & m == ((d >> lo) & ones) << lo
        &&& (s & m > d & m) <==> ((s >> lo) & ones > (d >> lo) & ones)
    }) by (bit_vector);
}

/// The capability bits of IA32_VMX_BASIC: DUAL_MON (49), VM_EXIT_INFO_INS_OUTS (54),
/// VMX_CTRLS_DEFAULT_MUT (55) and VM_ENTRY_HARDWARE_EXCEPTIONS (56).
pub open spec fn vmx_basic_capability_bit(i: u64) -> bool {
    i == 49 || i == 54 || i == 55 || i == 56
}

/// The bits of IA32_VMX_BASIC that must be equal: bits 0 to 53, except DUAL_MON (49).
pub open spec fn vmx_basic_equal_bit(i: u64) -> bool {
    i < 54 && i != 49
}

/// The IA32_VMX_BASIC check fails exactly when a capability bit is set only in the source value
/// or the values differ in bits 0 to 53 other than 49; it reports the capability bits set only
/// in the source, and the bits 0 to 53 (without 49) of both values when they differ.
pub proof fn lemma_vmx_basic_check(s: u64, d: u64)
    ensures
        vmx_basic_result(s, d) is Ok <==> {
            &&& forall|i: u64| i < 64 && vmx_basic_capability_bit(i) && #[trigger] bit_set(s, i) ==> bit_set(d, i)
            &&& forall|i: u64| i < 64 && vmx_basic_equal_bit(i) ==> (#[trigger] bit_set(s, i) <==> bit_set(d, i))
        },
        vmx_basic_result(s, d) matches Err(m) ==> {
            &&& m.src_val == s && m.dest_val == d && m.exceeds is None
            &&& m.bits_only_in_src is None <==> forall|i: u64|
                i < 64 && vmx_basic_capability_bit(i) && #[trigger] bit_set(s, i) ==> bit_set(d, i)
            &&& m.bits_only_in_src matches Some(b) ==> forall|i: u64|
                i < 64 ==> (#[trigger] bit_set(b, i) <==> (vmx_basic_capability_bit(i) && bit_set(s, i) && !bit_set(d, i)))
            &&& m.unequal is None <==> forall|i: u64|
                i < 64 && vmx_basic_equal_bit(i) ==> (#[trigger] bit_set(s, i) <==> bit_set(d, i))
            &&& m.unequal matches Some((a, b)) ==> forall|i: u64|
                i < 64 ==> (#[trigger] bit_set(a, i) <==> (vmx_basic_equal_bit(i) && bit_set(s, i)))
                    && (bit_set(b, i) <==> (vmx_basic_equal_bit(i) && bit_set(d, i)))
        },
{
    assert forall|i: u64| i < 64 implies (#[trigger] bit_set(VMX_BASIC_SUBSET_BITS, i) <==> vmx_basic_capability_bit(i)) by {
        assert(i < 64 ==> (((VMX_BASIC_SUBSET_BITS >> i) & 1 == 1) <==> (i == 49 || i == 54 || i == 55 || i == 56)))
            by (bit_vector);
    }
    assert forall|i: u64| i < 64 implies (#[trigger] bit_set(VMX_BASIC_EQUAL_BITS, i) <==> vmx_basic_equal_bit(i)) by {
        assert(i < 64 ==> (((VMX_BASIC_EQUAL_BITS >> i) & 1 == 1) <==> (i < 54 && i != 49))) by (bit_vector);
    }
    lemma_masked_subset(s, d, VMX_BASIC_SUBSET_BITS, |i: u64| vmx_basic_capability_bit(i));
    lemma_masked_equal(s, d, VMX_BASIC_EQUAL_BITS, |i: u64| vmx_basic_equal_bit(i));
}

/// The capability bits of IA32_VMX_MISC: IA32_EFER.LMA_STORE (5), HLT (6), SHUTDOWN (7) and
/// WAIT_FOR_SIPI (8) activity states, VMX_INTEL_PT (14), RDMSR_SMM (15),
/// SMM_MONITOR_CTL_BIT2 (28), VM_WRITE_EXIT_FIELDS (29) and VM_ENTRY_INJECTION (30).
pub open spec fn vmx_misc_capability_bit(i: u64) -> bool {
    i == 5 || i == 6 || i == 7 || i == 8 || i == 14 || i == 15 || i == 28 || i == 29 || i == 30
}

/// The IA32_VMX_MISC check fails exactly when a capability bit is set only in the source value,
/// the number of CR3-target values (bits 16 to 24) differs, or MAX_MSR_STORE_LISTS (bits 25 to
/// 27) is greater in the source value; it reports each of these with the bits concerned.
pub proof fn lemma_vmx_misc_check(s: u64, d: u64)
    ensures
        vmx_misc_result(s, d) is Ok <==> {
            &&& forall|i: u64| i < 64 && vmx_misc_capability_bit(i) && #[trigger] bit_set(s, i) ==> bit_set(d, i)
            &&& forall|i: u64| 16 <= i <= 24 ==> (#[trigger] bit_set(s, i) <==> bit_set(d, i))
            &&& (s >> 25) & 7 <= (d >> 25) & 7
        },
        vmx_misc_result(s, d) matches Err(m) ==> {
            &&& m.src_val == s && m.dest_val == d
            &&& m.bits_only_in_src is None <==> forall|i: u64|
                i < 64 && vmx_misc_capability_bit(i) && #[trigger] bit_set(s, i) ==> bit_set(d, i)
            &&& m.bits_only_in_src matches Some(b) ==> forall|i: u64|
                i < 64 ==> (#[trigger] bit_set(b, i) <==> (vmx_misc_capability_bit(i) && bit_set(s, i) && !bit_set(d, i)))
            &&& m.unequal is None <==> forall|i: u64| 16 <= i <= 24 ==> (#[trigger] bit_set(s, i) <==> bit_set(d, i))
            &&& m.unequal matches Some((a, b)) ==> forall|i: u64|
                i < 64 ==> (#[trigger] bit_set(a, i) <==> (16 <= i <= 24 && bit_set(s, i)))
                    && (bit_set(b, i) <==> (16 <= i <= 24 && bit_set(d, i)))
            &&& m.exceeds is Some <==> (s >> 25) & 7 > (d >> 25) & 7
            &&& m.exceeds matches Some((a, b)) ==> a == ((s >> 25) & 7) << 25 && b == ((d >> 25) & 7) << 25
        },
{
    assert forall|i: u64| i < 64 implies (#[trigger] bit_set(VMX_MISC_SUBSET_BITS, i) <==> vmx_misc_capability_bit(i)) by {
        assert(i < 64 ==> (((VMX_MISC_SUBSET_BITS >> i) & 1 == 1) <==> (i == 5 || i == 6 || i == 7 || i == 8 || i == 14
            || i == 15 || i == 28 || i == 29 || i == 30))) by (bit_vector);
    }
    let eq_mask = range_mask(16, 24);
    assert forall|i: u64| i < 64 implies (#[trigger] bit_set(eq_mask, i) <==> 16 <= i <= 24) by {
        assert(i < 64 ==> (((range_mask(16, 24) >> i) & 1 == 1) <==> 16 <= i <= 24)) by (bit_vector);
    }
    assert(range_mask(25, 27) == 7u64 << 25u64 && 7u64 >> (64 - 25u64) as u64 == 0) by (bit_vector);
    lemma_masked_subset(s, d, VMX_MISC_SUBSET_BITS, |i: u64| vmx_misc_capability_bit(i));
    lemma_masked_equal(s, d, eq_mask, |i: u64| 16 <= i <= 24);
    lemma_field_compare(s, d, range_mask(25, 27), 25, 7);
}

/// The check of IA32_VMX_CR0_FIXED0 or IA32_VMX_CR4_FIXED0 fails exactly when a bit that the
/// destination fixes to 1 may be 0 on the source; it reports exactly those bits.
pub proof fn lemma_cr_fixed0_check(s: u64, d: u64)
    ensures
        cr_fixed0_result(s, d) is Ok <==> forall|i: u64| i < 64 && #[trigger] bit_set(d, i) ==> bit_set(s, i),
        cr_fixed0_result(s, d) matches Err(m) ==> {
            &&& m.src_val == s && m.dest_val == d && m.unequal is None && m.exceeds is None
            &&& m.bits_only_in_src matches Some(b) && forall|i: u64|
                i < 64 ==> (#[trigger] bit_set(b, i) <==> (bit_set(d, i) && !bit_set(s, i)))
        },
{
    let x = only_in(!s, !d);
    assert forall|i: u64| i < 64 implies (#[trigger] bit_set(x, i) <==> (bit_set(d, i) && !bit_set(s, i))) by {
        assert(i < 64 ==> ((((!s & !!d) >> i) & 1 == 1) <==> (((d >> i) & 1 == 1) && !((s >> i) & 1 == 1)))) by (bit_vector);
    }
    lemma_zero_iff_no_bit_set(x);
    if !(forall|i: u64| i < 64 && #[trigger] bit_set(d, i) ==> bit_set(s, i)) {
        let i = choose|i: u64| !(i < 64 && #[trigger] bit_set(d, i) ==> bit_set(s, i));
        assert(bit_set(x, i));
    }
}

/// The IA32_VMX_VMCS_ENUM check fails exactly when MAX_INDEX (bits 1 to 9) is greater on the
/// source; it reports both fields in place.
pub proof fn lemma_vmcs_enum_check(s: u64, d: u64)
    ensures
        vmcs_enum_result(s, d) is Ok <==> (s >> 1) & 0x1ff <= (d >> 1) & 0x1ff,
        vmcs_enum_result(s, d) matches Err(m) ==> {
            &&& m.src_val == s && m.dest_val == d && m.bits_only_in_src is None && m.unequal is None
            &&& m.exceeds == Some((((s >> 1) & 0x1ff) << 1, ((d >> 1) & 0x1ff) << 1))
        },
{
    assert(range_mask(1, 9) == 0x1ffu64 << 1u64 && 0x1ffu64 >> (64 - 1u64) as u64 == 0) by (bit_vector);
    lemma_field_compare(s, d, range_mask(1, 9), 1, 0x1ff);
}

/// The IA32_VMX_EPT_VPID_CAP check fails exactly when one of the capability bits 0 to 43 is set
/// only in the source value, or the maximum HLAT prefix size (bits 48 to 53) is greater on the
/// source; it reports the capability bits set only in the source and both prefix-size fields.
pub proof fn lemma_ept_vpid_check(s: u64, d: u64)
    ensures
        ept_vpid_result(s, d) is Ok <==> {
            &&& forall|i: u64| i < 44 && #[trigger] bit_set(s, i) ==> bit_set(d, i)
            &&& (s >> 48) & 0x3f <= (d >> 48) & 0x3f
        },
        ept_vpid_result(s, d) matches Err(m) ==> {
            &&& m.src_val == s && m.dest_val == d && m.unequal is None
            &&& m.bits_only_in_src is None <==> forall|i: u64| i < 44 && #[trigger] bit_set(s, i) ==> bit_set(d, i)
            &&& m.bits_only_in_src matches Some(b) ==> forall|i: u64|
                i < 64 ==> (#[trigger] bit_set(b, i) <==> (i < 44 && bit_set(s, i) && !bit_set(d, i)))
            &&& m.exceeds is Some <==> (s >> 48) & 0x3f > (d >> 48) & 0x3f
            &&& m.exceeds matches Some((a, b)) ==> a == ((s >> 48) & 0x3f) << 48 && b == ((d >> 48) & 0x3f) << 48
        },
{
    assert forall|i: u64| i < 64 implies (#[trigger] bit_set(EPT_VPID_SUBSET_BITS, i) <==> i < 44) by {
        assert(i < 64 ==> (((EPT_VPID_SUBSET_BITS >> i) & 1 == 1) <==> i < 44)) by (bit_vector);
    }
    lemma_masked_subset(s, d, EPT_VPID_SUBSET_BITS, |i: u64| i < 44);
    assert(range_mask(48, 53) == 0x3fu64 << 48u64 && 0x3fu64 >> (64 - 48u64) as u64 == 0) by (bit_vector);
    lemma_field_compare(s, d, range_mask(48, 53), 48, 0x3f);
}

/// The check of a VMX control MSR with a default1 class reports exactly the bits below 32 that
/// are 0 on the source but 1 on the destination, and the bits from 32 on that are 1 on the
/// source but 0 on the destination; it fails exactly when one of the two sets is not empty.
pub proof fn lemma_ctls_check(s: u64, d: u64)
    ensures
        ctls_result(s, d) is Ok <==> {
            &&& forall|i: u64| i < 32 && !#[trigger] bit_set(s, i) ==> !bit_set(d, i)
            &&& forall|i: u64| 32 <= i < 64 && #[trigger] bit_set(s, i) ==> bit_set(d, i)
        },
        ctls_result(s, d) matches Err(c) ==> {
            &&& c.bitset_only_zero_src_lo is None <==> forall|i: u64| i < 32 && !#[trigger] bit_set(s, i) ==> !bit_set(d, i)
            &&& c.bitset_only_zero_src_lo matches Some(b) ==> forall|i: u64|
                i < 64 ==> (#[trigger] bit_set(b, i) <==> (i < 32 && !bit_set(s, i) && bit_set(d, i)))
            &&& c.bitset_only_one_src_hi is None <==> forall|i: u64| 32 <= i < 64 && #[trigger] bit_set(s, i) ==> bit_set(d, i)
            &&& c.bitset_only_one_src_hi matches Some(b) ==> forall|i: u64|
                i < 64 ==> (#[trigger] bit_set(b, i) <==> (32 <= i && bit_set(s, i) && !bit_set(d, i)))
        },
{
    let lo = only_in(!s & LO_HALF, !d & LO_HALF);
    let hi = only_in(s & HI_HALF, d & HI_HALF);
    assert forall|i: u64| i < 64 implies (#[trigger] bit_set(lo, i) <==> (i < 32 && !bit_set(s, i) && bit_set(d, i))) by {
        assert(i < 64 ==> ((((!s & 0xffff_ffffu64) & !(!d & 0xffff_ffffu64)) >> i) & 1 == 1
            <==> (i < 32 && !((s >> i) & 1 == 1) && (d >> i) & 1 == 1))) by (bit_vector);
    }
    assert forall|i: u64| i < 64 implies (#[trigger] bit_set(hi, i) <==> (32 <= i && bit_set(s, i) && !bit_set(d, i))) by {
        assert(i < 64 ==> ((((s & 0xffff_ffff_0000_0000u64) & !(d & 0xffff_ffff_0000_0000u64)) >> i) & 1 == 1
            <==> (32 <= i && (s >> i) & 1 == 1 && !((d >> i) & 1 == 1)))) by (bit_vector);
    }
    lemma_zero_iff_no_bit_set(lo);
    lemma_zero_iff_no_bit_set(hi);
    if !(forall|i: u64| i < 32 && !#[trigger] bit_set(s, i) ==> !bit_set(d, i)) {
        let i = choose|i: u64| !(i < 32 && !#[trigger] bit_set(s, i) ==> !bit_set(d, i));
        assert(bit_set(lo, i));
    }
    if !(forall|i: u64| 32 <= i < 64 && #[trigger] bit_set(s, i) ==> bit_set(d, i)) {
        let i = choose|i: u64| !(32 <= i < 64 && #[trigger] bit_set(s, i) ==> bit_set(d, i));
        assert(bit_set(hi, i));
    }
}

} // verus!
