//! The compatibility check of all the MSR-based features of a source with those of a destination.
use crate::bits::{check_subset, conditional_select, only_in};
use crate::checks::{
    arch_capabilities_result, check_arch_capabilities_compatibility, check_cr_i_compatibility,
    check_negative_subset_lo_and_subset_hi, check_vmx_basic_compatibility,
    check_vmx_misc_msr, check_vmx_vmcs_enum_compatibility, check_vpid_and_ept_capabilities,
    cr_fixed0_result, ctls_result, ept_vpid_result, mismatch_result, nonzero, vmcs_enum_result,
    vmx_basic_result, vmx_misc_result, CtlsCheck, ValueMismatch, LO_HALF,
};
use crate::definitions::RegisterAddress;
use std::collections::HashMap;
use vstd::prelude::*;

verus! {

broadcast use vstd::std_specs::hash::group_hash_axioms;

/// Why a VMX control MSR with a default1 class is incompatible.
#[derive(Clone, Copy, Debug, PartialEq, Eq)]
pub struct ControlsMismatch {
    /// The address of the control MSR that names the check (IA32_VMX_*_CTLS).
    pub ctrl_reg_address: u32,
    /// The address of the matching IA32_VMX_TRUE_*_CTLS MSR.
    pub true_ctrl_reg_address: u32,
    /// The register that was read on the source.
    pub src_reg_address: u32,
    /// The register that was read on the destination.
    pub dest_reg_address: u32,
    /// The value of that register on the source, if it has it.
    pub src_val: Option<u64>,
    /// The value of that register on the destination, if it has it (missing while the source
    /// has its value: an error by itself).
    pub dest_val: Option<u64>,
    /// The bits that failed the check, when both values are present.
    pub mismatch: Option<CtlsCheck>,
}

/// One incompatibility that [`check_feature_msr_compatibility`] found.
#[derive(Clone, Copy, Debug, PartialEq, Eq)]
pub enum MsrIncompatibility {
    /// The values of the MSR at `register` are incompatible.
    Value { register: u32, mismatch: ValueMismatch },
    /// A VMX control MSR with a default1 class is incompatible.
    Controls(ControlsMismatch),
}

/// The value of `k` in `m`, if any.
pub open spec fn lookup(m: Map<u32, u64>, k: u32) -> Option<u64> {
    if m.contains_key(k) {
        Some(m[k])
    } else {
        None
    }
}

/// The values of `register` on the source and the destination, when both have it.
pub open spec fn value_pair(src: Map<u32, u64>, dest: Map<u32, u64>, register: u32) -> Option<(u64, u64)> {
    if src.contains_key(register) && dest.contains_key(register) {
        Some((src[register], dest[register]))
    } else {
        None
    }
}

/// The values of `register` on the source and the destination, when both have it.
fn msr_pair(src: &HashMap<u32, u64>, dest: &HashMap<u32, u64>, register: u32) -> (r: Option<(u64, u64)>)
    ensures
        r == value_pair(src@, dest@, register),
{
    match (src.get(&register), dest.get(&register)) {
        (Some(s), Some(d)) => Some((*s, *d)),
        _ => None,
    }
}

/// The incompatibility that a check of `register` reported, if it failed.
pub open spec fn result_failures(register: u32, r: Result<(), ValueMismatch>) -> Seq<MsrIncompatibility> {
    match r {
        Err(mismatch) => seq![MsrIncompatibility::Value { register, mismatch }],
        Ok(_) => Seq::empty(),
    }
}

/// The check that applies to the values of `register`.
pub open spec fn register_check_result(register: u32, src_val: u64, dest_val: u64) -> Result<(), ValueMismatch> {
    if register == RegisterAddress::IA32_ARCH_CAPABILITIES {
        arch_capabilities_result(src_val, dest_val)
    } else if register == RegisterAddress::IA32_VMX_BASIC {
        vmx_basic_result(src_val, dest_val)
    } else if register == RegisterAddress::IA32_VMX_MISC {
        vmx_misc_result(src_val, dest_val)
    } else if register == RegisterAddress::IA32_VMX_CR0_FIXED0 || register == RegisterAddress::IA32_VMX_CR4_FIXED0 {
        cr_fixed0_result(src_val, dest_val)
    } else if register == RegisterAddress::IA32_VMX_VMCS_ENUM {
        vmcs_enum_result(src_val, dest_val)
    } else if register == RegisterAddress::IA32_VMX_EPT_VPID_CAP {
        ept_vpid_result(src_val, dest_val)
    } else {
        subset_value_result(src_val, dest_val)
    }
}

/// The incompatibility that the check of `register` reports, when both sides have the MSR.
pub open spec fn value_failures(src: Map<u32, u64>, dest: Map<u32, u64>, register: u32) -> Seq<MsrIncompatibility> {
    match value_pair(src, dest, register) {
        Some((s, d)) => result_failures(register, register_check_result(register, s, d)),
        None => Seq::empty(),
    }
}

/// The outcome of a check that every bit set in the source value is set in the destination value.
pub open spec fn subset_value_result(src_val: u64, dest_val: u64) -> Result<(), ValueMismatch> {
    mismatch_result(src_val, dest_val, nonzero(only_in(src_val, dest_val)), None, None)
}

/// Bit 55 of IA32_VMX_BASIC: the IA32_VMX_TRUE_*_CTLS MSRs exist.
pub open spec fn has_true_ctls(vmx_basic: u64) -> bool {
    vmx_basic & (1u64 << 55u64) != 0
}

/// Whether the source and the destination report the IA32_VMX_TRUE_*_CTLS MSRs; this is only
/// taken from IA32_VMX_BASIC when both sides have that MSR.
pub open spec fn true_ctls_exist(src: Map<u32, u64>, dest: Map<u32, u64>) -> (bool, bool) {
    match value_pair(src, dest, RegisterAddress::IA32_VMX_BASIC) {
        Some((s, d)) => (has_true_ctls(s), has_true_ctls(d)),
        None => (false, false),
    }
}

/// The outcome of [`check_vmx_ctls_with_default1_class`].
///
/// The register read on each side is `vmx_true_ctrl_reg_address` when that side reports the
/// TRUE controls (IA32_VMX_BASIC bit 55), and `vmx_ctrl_reg_address` when it does not. The check fails when the source
/// has a value and the destination has none, or when both have values that fail
/// [`ctls_result`].
pub open spec fn ctls_outcome(
    src: Map<u32, u64>,
    dest: Map<u32, u64>,
    vmx_ctrl_reg_address: u32,
    vmx_true_ctrl_reg_address: u32,
    true_ctls_exist_src: bool,
    true_ctls_exist_dest: bool,
) -> Result<(), ControlsMismatch> {
    let src_reg = if true_ctls_exist_src { vmx_true_ctrl_reg_address } else { vmx_ctrl_reg_address };
    let dest_reg = if true_ctls_exist_dest { vmx_true_ctrl_reg_address } else { vmx_ctrl_reg_address };
    let src_val = lookup(src, src_reg);
    let dest_val = lookup(dest, dest_reg);
    let mismatch = match (src_val, dest_val) {
        (Some(s), Some(d)) => match ctls_result(s, d) {
            Err(c) => Some(c),
            Ok(_) => None,
        },
        _ => None,
    };
    if (src_val is Some && dest_val is None) || mismatch is Some {
        Err(
            ControlsMismatch {
                ctrl_reg_address: vmx_ctrl_reg_address,
                true_ctrl_reg_address: vmx_true_ctrl_reg_address,
                src_reg_address: src_reg,
                dest_reg_address: dest_reg,
                src_val,
                dest_val,
                mismatch,
            },
        )
    } else {
        Ok(())
    }
}

/// The incompatibility that the check of a VMX control MSR with a default1 class reports, if any.
pub open spec fn ctls_failures(
    src: Map<u32, u64>,
    dest: Map<u32, u64>,
    vmx_ctrl_reg_address: u32,
    vmx_true_ctrl_reg_address: u32,
) -> Seq<MsrIncompatibility> {
    let flags = true_ctls_exist(src, dest);
    match ctls_outcome(src, dest, vmx_ctrl_reg_address, vmx_true_ctrl_reg_address, flags.0, flags.1) {
        Err(m) => seq![MsrIncompatibility::Controls(m)],
        Ok(_) => Seq::empty(),
    }
}

/// Check a VMX control MSR with a default1 class, reading on each side the register that
/// [`ctls_outcome`] selects.
pub fn check_vmx_ctls_with_default1_class(
    src_feature_msrs: &HashMap<u32, u64>,
    dest_feature_msrs: &HashMap<u32, u64>,
    vmx_ctrl_reg_address: u32,
    vmx_true_ctrl_reg_address: u32,
    true_ctls_exist_src: bool,
    true_ctls_exist_dest: bool,
) -> (r: Result<(), ControlsMismatch>)
    ensures
        r == ctls_outcome(
            src_feature_msrs@,
            dest_feature_msrs@,
            vmx_ctrl_reg_address,
            vmx_true_ctrl_reg_address,
            true_ctls_exist_src,
            true_ctls_exist_dest,
        ),
{
    let src_reg_address = conditional_select(vmx_true_ctrl_reg_address, vmx_ctrl_reg_address, true_ctls_exist_src);
    let dest_reg_address = conditional_select(vmx_true_ctrl_reg_address, vmx_ctrl_reg_address, true_ctls_exist_dest);
    let src_val = match src_feature_msrs.get(&src_reg_address) {
        Some(v) => Some(*v),
        None => None,
    };
    let dest_val = match dest_feature_msrs.get(&dest_reg_address) {
        Some(v) => Some(*v),
        None => None,
    };
    let mut is_err = src_val.is_some() && dest_val.is_none();
    let mut mismatch: Option<CtlsCheck> = None;
    if let (Some(s), Some(d)) = (src_val, dest_val) {
        if let Err(c) = check_negative_subset_lo_and_subset_hi(s, d) {
            is_err = true;
            mismatch = Some(c);
        }
    }
    if is_err {
        Err(
            ControlsMismatch {
                ctrl_reg_address: vmx_ctrl_reg_address,
                true_ctrl_reg_address: vmx_true_ctrl_reg_address,
                src_reg_address,
                dest_reg_address,
                src_val,
                dest_val,
                mismatch,
            },
        )
    } else {
        Ok(())
    }
}

/// The incompatibilities of the source's MSR-based features with the destination's, in the order
/// in which [`check_feature_msr_compatibility`] checks the MSRs.
pub open spec fn feature_msr_failures(src: Map<u32, u64>, dest: Map<u32, u64>) -> Seq<MsrIncompatibility> {
    value_failures(src, dest, RegisterAddress::IA32_ARCH_CAPABILITIES)
        + value_failures(src, dest, RegisterAddress::IA32_VMX_BASIC)
        + ctls_failures(src, dest, RegisterAddress::IA32_VMX_PINBASED_CTLS, RegisterAddress::IA32_VMX_TRUE_PINBASED_CTLS)
        + ctls_failures(src, dest, RegisterAddress::IA32_VMX_PROCBASED_CTLS, RegisterAddress::IA32_VMX_TRUE_PROCBASED_CTLS)
        + ctls_failures(src, dest, RegisterAddress::IA32_VMX_EXIT_CTLS, RegisterAddress::IA32_VMX_TRUE_EXIT_CTLS)
        + ctls_failures(src, dest, RegisterAddress::IA32_VMX_ENTRY_CTLS, RegisterAddress::IA32_VMX_TRUE_ENTRY_CTLS)
        + value_failures(src, dest, RegisterAddress::IA32_VMX_MISC)
        + value_failures(src, dest, RegisterAddress::IA32_VMX_CR0_FIXED0)
        + value_failures(src, dest, RegisterAddress::IA32_VMX_CR4_FIXED0)
        + value_failures(src, dest, RegisterAddress::IA32_VMX_VMCS_ENUM)
        + value_failures(src, dest, RegisterAddress::IA32_VMX_PROCBASED_CTLS2)
        + value_failures(src, dest, RegisterAddress::IA32_VMX_PROCBASED_CTLS3)
        + value_failures(src, dest, RegisterAddress::IA32_VMX_EXIT_CTLS2)
        + value_failures(src, dest, RegisterAddress::IA32_VMX_EPT_VPID_CAP)
        + value_failures(src, dest, RegisterAddress::IA32_VMX_VMFUNC)
}

/// The registers whose values [`check_feature_msr_compatibility`] may read.
pub open spec fn is_checked_register(register: u32) -> bool {
    ||| register == RegisterAddress::IA32_ARCH_CAPABILITIES
    ||| register == RegisterAddress::IA32_VMX_BASIC
    ||| register == RegisterAddress::IA32_VMX_PINBASED_CTLS
    ||| register == RegisterAddress::IA32_VMX_PROCBASED_CTLS
    ||| register == RegisterAddress::IA32_VMX_EXIT_CTLS
    ||| register == RegisterAddress::IA32_VMX_ENTRY_CTLS
    ||| register == RegisterAddress::IA32_VMX_TRUE_PINBASED_CTLS
    ||| register == RegisterAddress::IA32_VMX_TRUE_PROCBASED_CTLS
    ||| register == RegisterAddress::IA32_VMX_TRUE_EXIT_CTLS
    ||| register == RegisterAddress::IA32_VMX_TRUE_ENTRY_CTLS
    ||| register == RegisterAddress::IA32_VMX_MISC
    ||| register == RegisterAddress::IA32_VMX_CR0_FIXED0
    ||| register == RegisterAddress::IA32_VMX_CR4_FIXED0
    ||| register == RegisterAddress::IA32_VMX_VMCS_ENUM
    ||| register == RegisterAddress::IA32_VMX_PROCBASED_CTLS2
    ||| register == RegisterAddress::IA32_VMX_PROCBASED_CTLS3
    ||| register == RegisterAddress::IA32_VMX_EXIT_CTLS2
    ||| register == RegisterAddress::IA32_VMX_EPT_VPID_CAP
    ||| register == RegisterAddress::IA32_VMX_VMFUNC
}

/// The first 32 bits of IA32_VMX_PROCBASED_CTLS2 are documented to be zero on both sides, when
/// both have the MSR.
pub open spec fn procbased_ctls2_low_half_clear(src: Map<u32, u64>, dest: Map<u32, u64>) -> bool {
    match value_pair(src, dest, RegisterAddress::IA32_VMX_PROCBASED_CTLS2) {
        Some((s, d)) => s & LO_HALF == 0 && d & LO_HALF == 0,
        None => true,
    }
}

/// Append the incompatibility that the check of `register` reported, if it failed.
fn push_value_failure(failures: &mut Vec<MsrIncompatibility>, register: u32, r: Result<(), ValueMismatch>)
    ensures
        final(failures)@ == old(failures)@ + result_failures(register, r),
{
    if let Err(mismatch) = r {
        failures.push(MsrIncompatibility::Value { register, mismatch });
    }
    assert(final(failures)@ =~= old(failures)@ + result_failures(register, r));
}

/// Run the check of `register` on its two values, when both sides have the MSR, and append the
/// incompatibility it reports.
fn check_register(
    src_feature_msrs: &HashMap<u32, u64>,
    dest_feature_msrs: &HashMap<u32, u64>,
    failures: &mut Vec<MsrIncompatibility>,
    register: u32,
)
    requires
        register == RegisterAddress::IA32_VMX_PROCBASED_CTLS2 ==> procbased_ctls2_low_half_clear(
            src_feature_msrs@,
            dest_feature_msrs@,
        ),
    ensures
        final(failures)@ == old(failures)@ + value_failures(src_feature_msrs@, dest_feature_msrs@, register),
{
    if let Some((src_val, dest_val)) = msr_pair(src_feature_msrs, dest_feature_msrs, register) {
        let r = if register == RegisterAddress::IA32_ARCH_CAPABILITIES {
            check_arch_capabilities_compatibility(src_val, dest_val)
        } else if register == RegisterAddress::IA32_VMX_BASIC {
            check_vmx_basic_compatibility(src_val, dest_val)
        } else if register == RegisterAddress::IA32_VMX_MISC {
            check_vmx_misc_msr(src_val, dest_val)
        } else if register == RegisterAddress::IA32_VMX_CR0_FIXED0 {
            check_cr_i_compatibility::<0>(src_val, dest_val)
        } else if register == RegisterAddress::IA32_VMX_CR4_FIXED0 {
            check_cr_i_compatibility::<4>(src_val, dest_val)
        } else if register == RegisterAddress::IA32_VMX_VMCS_ENUM {
            check_vmx_vmcs_enum_compatibility(src_val, dest_val)
        } else if register == RegisterAddress::IA32_VMX_EPT_VPID_CAP {
            check_vpid_and_ept_capabilities(src_val, dest_val)
        } else {
            match check_subset(src_val, dest_val) {
                Err(bits_only_in_src) => Err(
                    ValueMismatch {
                        src_val,
                        dest_val,
                        bits_only_in_src: Some(bits_only_in_src),
                        unequal: None,
                        exceeds: None,
                    },
                ),
                Ok(()) => Ok(()),
            }
        };
        push_value_failure(failures, register, r);
    } else {
        assert(final(failures)@ =~= old(failures)@ + value_failures(src_feature_msrs@, dest_feature_msrs@, register));
    }
}

/// Run the check of a VMX control MSR with a default1 class and append the incompatibility it
/// reports.
fn check_controls(
    src_feature_msrs: &HashMap<u32, u64>,
    dest_feature_msrs: &HashMap<u32, u64>,
    failures: &mut Vec<MsrIncompatibility>,
    vmx_ctrl_reg_address: u32,
    vmx_true_ctrl_reg_address: u32,
    true_ctls_exist_src: bool,
    true_ctls_exist_dest: bool,
)
    requires
        (true_ctls_exist_src, true_ctls_exist_dest) == true_ctls_exist(src_feature_msrs@, dest_feature_msrs@),
    ensures
        final(failures)@ == old(failures)@ + ctls_failures(
            src_feature_msrs@,
            dest_feature_msrs@,
            vmx_ctrl_reg_address,
            vmx_true_ctrl_reg_address,
        ),
{
    let r = check_vmx_ctls_with_default1_class(
        src_feature_msrs,
        dest_feature_msrs,
        vmx_ctrl_reg_address,
        vmx_true_ctrl_reg_address,
        true_ctls_exist_src,
        true_ctls_exist_dest,
    );
    if let Err(m) = r {
        failures.push(MsrIncompatibility::Controls(m));
    }
    assert(final(failures)@ =~= old(failures)@ + ctls_failures(
        src_feature_msrs@,
        dest_feature_msrs@,
        vmx_ctrl_reg_address,
        vmx_true_ctrl_reg_address,
    ));
}

/// Check that the `src_feature_msrs` are compatible with those given in `dest_feature_msrs`.
///
/// If this check fails, then software that works under the `src_feature_msrs`, may no longer
/// behave correctly with `dest_feature_msrs`.
///
/// NOTE: This function assumes CPUID compatibility.
///
/// The register addresses of the feature table are checked, except for IA32_BIOS_SIGN_ID,
/// IA32_PERF_CAPABILITIES and MSR_PLATFORM_INFO, and IA32_VMX_CR0_FIXED1 and
/// IA32_VMX_CR4_FIXED1, whose compatibility CPUID ensures. IA32_PERF_CAPABILITIES are inherently
/// incompatible between different VMs, and IA32_BIOS_SIGN_ID and MSR_PLATFORM_INFO make little
/// sense to compare in this context. Of each pair of VMX control MSRs with a default1 class, a
/// side's IA32_VMX_TRUE_*_CTLS register is read when its IA32_VMX_BASIC reports the TRUE controls
/// (bit 55, taken only when both sides have IA32_VMX_BASIC), and its IA32_VMX_*_CTLS register
/// otherwise.
///
/// # Errors
///
/// The function does not stop at the first failed check, but runs every MSR-based feature check
/// and returns all the incompatibilities it found, in the order of the checks.
pub fn check_feature_msr_compatibility(
    src_feature_msrs: &HashMap<u32, u64>,
    dest_feature_msrs: &HashMap<u32, u64>,
) -> (r: Result<(), Vec<MsrIncompatibility>>)
    requires
        procbased_ctls2_low_half_clear(src_feature_msrs@, dest_feature_msrs@),
    ensures
        match r {
            Ok(()) => feature_msr_failures(src_feature_msrs@, dest_feature_msrs@).len() == 0,
            Err(failures) => failures@ == feature_msr_failures(src_feature_msrs@, dest_feature_msrs@)
                && failures@.len() > 0,
        },
{
    let ghost src = src_feature_msrs@;
    let ghost dest = dest_feature_msrs@;
    let mut failures: Vec<MsrIncompatibility> = Vec::new();
    // First IA32_ARCH_CAPABILITIES. Since CPUID is assumed to be compatible, either both sides
    // have this MSR or none of them does.
    check_register(src_feature_msrs, dest_feature_msrs, &mut failures, RegisterAddress::IA32_ARCH_CAPABILITIES);

    // Next IA32_VMX_BASIC, which also tells whether the IA32_VMX_TRUE_*_CTLS MSRs exist.
    let mut true_ctls_exist_src = false;
    let mut true_ctls_exist_dest = false;
    if let Some((src_val, dest_val)) = msr_pair(src_feature_msrs, dest_feature_msrs, RegisterAddress::IA32_VMX_BASIC) {
        true_ctls_exist_src = (src_val & (1u64 << 55u64)) != 0;
        true_ctls_exist_dest = (dest_val & (1u64 << 55u64)) != 0;
    }
    check_register(src_feature_msrs, dest_feature_msrs, &mut failures, RegisterAddress::IA32_VMX_BASIC);

    // IA32_VMX_PINBASED_CTLS and/or IA32_VMX_TRUE_PINBASED_CTLS (Intel SDM Vol.3D A.3.1)
    check_controls(
        src_feature_msrs,
        dest_feature_msrs,
        &mut failures,
        RegisterAddress::IA32_VMX_PINBASED_CTLS,
        RegisterAddress::IA32_VMX_TRUE_PINBASED_CTLS,
        true_ctls_exist_src,
        true_ctls_exist_dest,
    );
    // IA32_VMX_PROCBASED_CTLS and/or IA32_VMX_TRUE_PROCBASED_CTLS (Intel SDM Vol.3D A.3.2.)
    check_controls(
        src_feature_msrs,
        dest_feature_msrs,
        &mut failures,
        RegisterAddress::IA32_VMX_PROCBASED_CTLS,
        RegisterAddress::IA32_VMX_TRUE_PROCBASED_CTLS,
        true_ctls_exist_src,
        true_ctls_exist_dest,
    );
    // IA32_VMX_EXIT_CTLS and/or IA32_VMX_TRUE_EXIT_CTLS (Intel SDM Vol.3D A.4)
    check_controls(
        src_feature_msrs,
        dest_feature_msrs,
        &mut failures,
        RegisterAddress::IA32_VMX_EXIT_CTLS,
        RegisterAddress::IA32_VMX_TRUE_EXIT_CTLS,
        true_ctls_exist_src,
        true_ctls_exist_dest,
    );
    // IA32_VMX_ENTRY_CTLS and/or IA32_VMX_TRUE_ENTRY_CTLS (Intel SDM Vol.3D A.5)
    check_controls(
        src_feature_msrs,
        dest_feature_msrs,
        &mut failures,
        RegisterAddress::IA32_VMX_ENTRY_CTLS,
        RegisterAddress::IA32_VMX_TRUE_ENTRY_CTLS,
        true_ctls_exist_src,
        true_ctls_exist_dest,
    );
    check_register(src_feature_msrs, dest_feature_msrs, &mut failures, RegisterAddress::IA32_VMX_MISC);
    check_register(src_feature_msrs, dest_feature_msrs, &mut failures, RegisterAddress::IA32_VMX_CR0_FIXED0);
    check_register(src_feature_msrs, dest_feature_msrs, &mut failures, RegisterAddress::IA32_VMX_CR4_FIXED0);
    check_register(src_feature_msrs, dest_feature_msrs, &mut failures, RegisterAddress::IA32_VMX_VMCS_ENUM);
    // IA32_VMX_PROCBASED_CTLS2 exists only if bit 63 of IA32_VMX_PROCBASED_CTLS is set; the
    // IA32_VMX_PROCBASED_CTLS check ensures that the destination then has it too.
    check_register(src_feature_msrs, dest_feature_msrs, &mut failures, RegisterAddress::IA32_VMX_PROCBASED_CTLS2);
    // IA32_VMX_PROCBASED_CTLS3 exists only if bit 49 of IA32_VMX_PROCBASED_CTLS is set.
    check_register(src_feature_msrs, dest_feature_msrs, &mut failures, RegisterAddress::IA32_VMX_PROCBASED_CTLS3);
    // IA32_VMX_EXIT_CTLS2 exists only if bit 63 of IA32_VMX_EXIT_CTLS is set.
    check_register(src_feature_msrs, dest_feature_msrs, &mut failures, RegisterAddress::IA32_VMX_EXIT_CTLS2);
    // IA32_VMX_EPT_VPID_CAP (Intel SDM Vol.3D A.10) is only available where bit 63 of
    // IA32_VMX_PROCBASED_CTLS is 1 and bit 33 or bit 37 of IA32_VMX_PROCBASED_CTLS2 is set; the
    // checks above make the destination have it whenever the source has it.
    check_register(src_feature_msrs, dest_feature_msrs, &mut failures, RegisterAddress::IA32_VMX_EPT_VPID_CAP);
    check_register(src_feature_msrs, dest_feature_msrs, &mut failures, RegisterAddress::IA32_VMX_VMFUNC);
    assert(failures@ =~= feature_msr_failures(src, dest));
    if failures.len() == 0 {
        Ok(())
    } else {
        Err(failures)
    }
}

} // verus!
