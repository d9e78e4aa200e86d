//! Properties of the compatibility checks that hold for all inputs.
use crate::bits::{bit_set, only_in, subset_result};
use crate::checks::{ctls_result, LO_HALF};
use crate::compat::{
    ctls_failures, ctls_outcome, feature_msr_failures, is_checked_register, lookup,
    register_check_result, true_ctls_exist, value_failures,
};
use crate::definitions::RegisterAddress;
use vstd::prelude::*;

verus! {

broadcast use vstd::std_specs::bits::group_bits_axioms;

/// A value is zero exactly when none of its 64 bits is set.
pub proof fn lemma_zero_iff_no_bit_set(x: u64)
    ensures
        x == 0 <==> forall|i: u64| i < 64 ==> !#[trigger] bit_set(x, i),
{
    if x == 0 {
        assert forall|i: u64| i < 64 implies !#[trigger] bit_set(x, i) by {
            assert((0u64 >> i) & 1 == 0) by (bit_vector);
        }
    } else {
        let t = vstd::std_specs::bits::u64_trailing_zeros(x);
        assert(t < 64);
        assert(bit_set(x, t as u64));
    }
}

/// `check_subset` succeeds exactly when every bit set in the source value is also set in the
/// destination value; when it fails, the bitset it returns holds exactly the bits that are set
/// in the source value only.
pub proof fn lemma_check_subset_bitwise(src_val: u64, dest_val: u64)
    ensures
        subset_result(src_val, dest_val) is Ok <==> (forall|i: u64|
            i < 64 && #[trigger] bit_set(src_val, i) ==> bit_set(dest_val, i)),
        subset_result(src_val, dest_val) matches Err(bits) ==> forall|i: u64|
            i < 64 ==> (#[trigger] bit_set(bits, i) <==> (bit_set(src_val, i) && !bit_set(dest_val, i))),
{
    let x = only_in(src_val, dest_val);
    assert forall|i: u64| i < 64 implies (#[trigger] bit_set(x, i) <==> (bit_set(src_val, i) && !bit_set(dest_val, i))) by {
        assert(i < 64 ==> ((((src_val & !dest_val) >> i) & 1 == 1) <==> (((src_val >> i) & 1 == 1) && !((dest_val >> i) & 1 == 1))))
            by (bit_vector);
    }
    lemma_zero_iff_no_bit_set(x);
    if !(forall|i: u64| i < 64 && #[trigger] bit_set(src_val, i) ==> bit_set(dest_val, i)) {
        let i = choose|i: u64| !(i < 64 && #[trigger] bit_set(src_val, i) ==> bit_set(dest_val, i));
        assert(bit_set(x, i));
    }
}

/// The check of a VMX control MSR with a default1 class succeeds exactly when
/// 1. for any X < 32, if bit X of the source value is 0 then bit X of the destination value is 0, and
/// 2. for any X >= 32, if bit X of the source value is 1 then bit X of the destination value is 1.
pub proof fn lemma_ctls_check_bitwise(src_val: u64, dest_val: u64)
    ensures
        ctls_result(src_val, dest_val) is Ok <==> {
            &&& forall|i: u64| i < 32 && !#[trigger] bit_set(src_val, i) ==> !bit_set(dest_val, i)
            &&& forall|i: u64| 32 <= i < 64 && #[trigger] bit_set(src_val, i) ==> bit_set(dest_val, i)
        },
{
    crate::check_laws::lemma_ctls_check(src_val, dest_val);
}

/// Every MSR value is compatible with itself.
pub proof fn lemma_value_checks_reflexive(register: u32, value: u64)
    ensures
        register_check_result(register, value, value) is Ok,
        ctls_result(value, value) is Ok,
{
    assert(forall|m: u64| #[trigger] only_in(value & m, value & m) == 0) by {
        assert forall|m: u64| #[trigger] only_in(value & m, value & m) == 0 by {
            assert((value & m) & !(value & m) == 0) by (bit_vector);
        }
    }
    assert(only_in(value, value) == 0) by {
        assert(value & !value == 0) by (bit_vector);
    }
    assert(only_in(!value, !value) == 0) by {
        assert(!value & !!value == 0) by (bit_vector);
    }
    assert(only_in(!value & LO_HALF, !value & LO_HALF) == 0) by {
        assert((!value & 0xffff_ffffu64) & !(!value & 0xffff_ffffu64) == 0) by (bit_vector);
    }
}

/// Compatibility of MSR values is transitive: when the values of `a` are compatible with those of
/// `b`, and those of `b` with those of `c`, then those of `a` are compatible with those of `c`.
pub proof fn lemma_value_checks_transitive(register: u32, a: u64, b: u64, c: u64)
    requires
        register_check_result(register, a, b) is Ok,
        register_check_result(register, b, c) is Ok,
    ensures
        register_check_result(register, a, c) is Ok,
{
    assert forall|m: u64|
        only_in(a & m, b & m) == 0 && only_in(b & m, c & m) == 0 implies #[trigger] only_in(a & m, c & m) == 0 by {
        assert((a & m) & !(b & m) == 0 && (b & m) & !(c & m) == 0 ==> (a & m) & !(c & m) == 0) by (bit_vector);
    }
    assert(only_in(a, b) == 0 && only_in(b, c) == 0 ==> only_in(a, c) == 0) by {
        assert(a & !b == 0 && b & !c == 0 ==> a & !c == 0) by (bit_vector);
    }
    assert(only_in(!a, !b) == 0 && only_in(!b, !c) == 0 ==> only_in(!a, !c) == 0) by {
        assert(!a & !!b == 0 && !b & !!c == 0 ==> !a & !!c == 0) by (bit_vector);
    }
}

/// The check of VMX control MSRs with a default1 class is transitive.
pub proof fn lemma_ctls_check_transitive(a: u64, b: u64, c: u64)
    requires
        ctls_result(a, b) is Ok,
        ctls_result(b, c) is Ok,
    ensures
        ctls_result(a, c) is Ok,
{
    assert((!a & 0xffff_ffffu64) & !(!b & 0xffff_ffffu64) == 0 && (!b & 0xffff_ffffu64) & !(!c & 0xffff_ffffu64) == 0
        ==> (!a & 0xffff_ffffu64) & !(!c & 0xffff_ffffu64) == 0) by (bit_vector);
    assert((a & 0xffff_ffff_0000_0000u64) & !(b & 0xffff_ffff_0000_0000u64) == 0
        && (b & 0xffff_ffff_0000_0000u64) & !(c & 0xffff_ffff_0000_0000u64) == 0
        ==> (a & 0xffff_ffff_0000_0000u64) & !(c & 0xffff_ffff_0000_0000u64) == 0) by (bit_vector);
}

/// A set of MSR-based features is compatible with itself.
pub proof fn lemma_compatibility_reflexive(msrs: Map<u32, u64>)
    ensures
        feature_msr_failures(msrs, msrs).len() == 0,
{
    assert forall|register: u32| #[trigger] value_failures(msrs, msrs, register).len() == 0 by {
        if msrs.contains_key(register) {
            lemma_value_checks_reflexive(register, msrs[register]);
        }
    }
    assert forall|ctrl: u32, true_ctrl: u32| #[trigger] ctls_failures(msrs, msrs, ctrl, true_ctrl).len() == 0 by {
        let flags = true_ctls_exist(msrs, msrs);
        let reg = if flags.0 { true_ctrl } else { ctrl };
        if msrs.contains_key(reg) {
            lemma_value_checks_reflexive(0, msrs[reg]);
        }
    }
}

proof fn lemma_value_failures_transitive(a: Map<u32, u64>, b: Map<u32, u64>, c: Map<u32, u64>, register: u32)
    requires
        a.dom() == b.dom(),
        b.dom() == c.dom(),
        value_failures(a, b, register).len() == 0,
        value_failures(b, c, register).len() == 0,
    ensures
        value_failures(a, c, register).len() == 0,
{
    if a.contains_key(register) {
        assert(b.contains_key(register));
        lemma_value_checks_transitive(register, a[register], b[register], c[register]);
    }
}

proof fn lemma_ctls_failures_transitive(
    a: Map<u32, u64>,
    b: Map<u32, u64>,
    c: Map<u32, u64>,
    ctrl: u32,
    true_ctrl: u32,
)
    requires
        a.dom() == b.dom(),
        b.dom() == c.dom(),
        ctls_failures(a, b, ctrl, true_ctrl).len() == 0,
        ctls_failures(b, c, ctrl, true_ctrl).len() == 0,
    ensures
        ctls_failures(a, c, ctrl, true_ctrl).len() == 0,
{
    let fab = true_ctls_exist(a, b);
    let fbc = true_ctls_exist(b, c);
    let fac = true_ctls_exist(a, c);
    assert(fab.0 == fac.0 && fab.1 == fbc.0 && fbc.1 == fac.1);
    let ra = if fac.0 { true_ctrl } else { ctrl };
    let rb = if fab.1 { true_ctrl } else { ctrl };
    let rc = if fac.1 { true_ctrl } else { ctrl };
    assert(ctls_outcome(a, b, ctrl, true_ctrl, fab.0, fab.1) is Ok);
    assert(ctls_outcome(b, c, ctrl, true_ctrl, fbc.0, fbc.1) is Ok);
    if a.contains_key(ra) {
        assert(b.contains_key(rb));
        assert(c.contains_key(rc));
        lemma_ctls_check_transitive(a[ra], b[rb], c[rc]);
    }
    assert(ctls_outcome(a, c, ctrl, true_ctrl, fac.0, fac.1) is Ok);
}

/// Compatibility is transitive among sets of MSR-based features that have the same registers:
/// when `a` is compatible with `b` and `b` with `c`, then `a` is compatible with `c`.
pub proof fn lemma_compatibility_transitive(a: Map<u32, u64>, b: Map<u32, u64>, c: Map<u32, u64>)
    requires
        a.dom() == b.dom(),
        b.dom() == c.dom(),
        feature_msr_failures(a, b).len() == 0,
        feature_msr_failures(b, c).len() == 0,
    ensures
        feature_msr_failures(a, c).len() == 0,
{
    assert forall|register: u32|
        value_failures(a, b, register).len() == 0 && value_failures(b, c, register).len() == 0
        implies #[trigger] value_failures(a, c, register).len() == 0 by {
        lemma_value_failures_transitive(a, b, c, register);
    }
    assert forall|ctrl: u32, true_ctrl: u32|
        ctls_failures(a, b, ctrl, true_ctrl).len() == 0 && ctls_failures(b, c, ctrl, true_ctrl).len() == 0
        implies #[trigger] ctls_failures(a, c, ctrl, true_ctrl).len() == 0 by {
        lemma_ctls_failures_transitive(a, b, c, ctrl, true_ctrl);
    }
}

proof fn lemma_same_values(src: Map<u32, u64>, dest: Map<u32, u64>, src2: Map<u32, u64>, dest2: Map<u32, u64>, k: u32)
    requires
        is_checked_register(k),
        agree_on_checked_registers(src, dest, src2, dest2),
    ensures
        src.contains_key(k) <==> src2.contains_key(k),
        dest.contains_key(k) <==> dest2.contains_key(k),
        src.contains_key(k) ==> src[k] == src2[k],
        dest.contains_key(k) ==> dest[k] == dest2[k],
        lookup(src, k) == lookup(src2, k),
        lookup(dest, k) == lookup(dest2, k),
{
    assert(lookup(src, k) == lookup(src2, k));
    assert(lookup(dest, k) == lookup(dest2, k));
}

/// Both pairs of maps hold the same values (or the same absence of one) at every checked register.
pub open spec fn agree_on_checked_registers(
    src: Map<u32, u64>,
    dest: Map<u32, u64>,
    src2: Map<u32, u64>,
    dest2: Map<u32, u64>,
) -> bool {
    forall|k: u32|
        is_checked_register(k) ==> #[trigger] lookup(src, k) == lookup(src2, k) && lookup(dest, k) == lookup(dest2, k)
}

proof fn lemma_value_failures_same(src: Map<u32, u64>, dest: Map<u32, u64>, src2: Map<u32, u64>, dest2: Map<u32, u64>, k: u32)
    requires
        is_checked_register(k),
        agree_on_checked_registers(src, dest, src2, dest2),
    ensures
        value_failures(src, dest, k) == value_failures(src2, dest2, k),
{
    lemma_same_values(src, dest, src2, dest2, k);
}

proof fn lemma_ctls_failures_same(
    src: Map<u32, u64>,
    dest: Map<u32, u64>,
    src2: Map<u32, u64>,
    dest2: Map<u32, u64>,
    ctrl: u32,
    true_ctrl: u32,
)
    requires
        is_checked_register(ctrl),
        is_checked_register(true_ctrl),
        agree_on_checked_registers(src, dest, src2, dest2),
    ensures
        ctls_failures(src, dest, ctrl, true_ctrl) == ctls_failures(src2, dest2, ctrl, true_ctrl),
{
    lemma_same_values(src, dest, src2, dest2, RegisterAddress::IA32_VMX_BASIC);
    lemma_same_values(src, dest, src2, dest2, ctrl);
    lemma_same_values(src, dest, src2, dest2, true_ctrl);
    assert(true_ctls_exist(src, dest) == true_ctls_exist(src2, dest2));
}

/// The result depends only on the checked registers: entries for IA32_BIOS_SIGN_ID,
/// IA32_PERF_CAPABILITIES, MSR_PLATFORM_INFO, IA32_VMX_CR0_FIXED1, IA32_VMX_CR4_FIXED1 or any
/// address outside the feature table may be added, removed or changed on either side without
/// changing the incompatibilities found.
pub proof fn lemma_compatibility_ignores_unchecked_registers(
    src: Map<u32, u64>,
    dest: Map<u32, u64>,
    src2: Map<u32, u64>,
    dest2: Map<u32, u64>,
)
    requires
        agree_on_checked_registers(src, dest, src2, dest2),
    ensures
        feature_msr_failures(src, dest) == feature_msr_failures(src2, dest2),
{
    lemma_value_failures_same(src, dest, src2, dest2, RegisterAddress::IA32_ARCH_CAPABILITIES);
    lemma_value_failures_same(src, dest, src2, dest2, RegisterAddress::IA32_VMX_BASIC);
    lemma_ctls_failures_same(src, dest, src2, dest2, RegisterAddress::IA32_VMX_PINBASED_CTLS, RegisterAddress::IA32_VMX_TRUE_PINBASED_CTLS);
    lemma_ctls_failures_same(src, dest, src2, dest2, RegisterAddress::IA32_VMX_PROCBASED_CTLS, RegisterAddress::IA32_VMX_TRUE_PROCBASED_CTLS);
    lemma_ctls_failures_same(src, dest, src2, dest2, RegisterAddress::IA32_VMX_EXIT_CTLS, RegisterAddress::IA32_VMX_TRUE_EXIT_CTLS);
    lemma_ctls_failures_same(src, dest, src2, dest2, RegisterAddress::IA32_VMX_ENTRY_CTLS, RegisterAddress::IA32_VMX_TRUE_ENTRY_CTLS);
    lemma_value_failures_same(src, dest, src2, dest2, RegisterAddress::IA32_VMX_MISC);
    lemma_value_failures_same(src, dest, src2, dest2, RegisterAddress::IA32_VMX_CR0_FIXED0);
    lemma_value_failures_same(src, dest, src2, dest2, RegisterAddress::IA32_VMX_CR4_FIXED0);
    lemma_value_failures_same(src, dest, src2, dest2, RegisterAddress::IA32_VMX_VMCS_ENUM);
    lemma_value_failures_same(src, dest, src2, dest2, RegisterAddress::IA32_VMX_PROCBASED_CTLS2);
    lemma_value_failures_same(src, dest, src2, dest2, RegisterAddress::IA32_VMX_PROCBASED_CTLS3);
    lemma_value_failures_same(src, dest, src2, dest2, RegisterAddress::IA32_VMX_EXIT_CTLS2);
    lemma_value_failures_same(src, dest, src2, dest2, RegisterAddress::IA32_VMX_EPT_VPID_CAP);
    lemma_value_failures_same(src, dest, src2, dest2, RegisterAddress::IA32_VMX_VMFUNC);
}

} // verus!
