//! Compatibility checks of the values of single MSRs.
//!
//! Each check compares the value that an MSR has on the source (`src`) with the value it has on
//! the destination (`dest`). A check fails when software that works with the source value may
//! no longer behave correctly with the destination value.
use crate::bits::{bit_range_mask, check_subset, only_in, range_mask};
use vstd::prelude::*;

verus! {

/// Why the values of an MSR are incompatible.
#[derive(Clone, Copy, Debug, PartialEq, Eq)]
pub struct ValueMismatch {
    /// The value on the source.
    pub src_val: u64,
    /// The value on the destination.
    pub dest_val: u64,
    /// The bits that the subset part of the check flags: checked bits that are set in the source
    /// value but not in the destination value (for the CRx_FIXED0 registers: bits that are clear
    /// in the source value but set in the destination value).
    pub bits_only_in_src: Option<u64>,
    /// The masked source and destination values of a field that must be equal, when they differ.
    pub unequal: Option<(u64, u64)>,
    /// The masked source and destination values of a field whose source value may not exceed its
    /// destination value, when it does.
    pub exceeds: Option<(u64, u64)>,
}

/// The result of a check on the given violations: an error exactly when one of them occurred.
pub open spec fn mismatch_result(
    src_val: u64,
    dest_val: u64,
    bits_only_in_src: Option<u64>,
    unequal: Option<(u64, u64)>,
    exceeds: Option<(u64, u64)>,
) -> Result<(), ValueMismatch> {
    if bits_only_in_src is None && unequal is None && exceeds is None {
        Ok(())
    } else {
        Err(ValueMismatch { src_val, dest_val, bits_only_in_src, unequal, exceeds })
    }
}

/// `Some(bits)` when `bits` is not zero.
pub open spec fn nonzero(bits: u64) -> Option<u64> {
    if bits == 0 {
        None
    } else {
        Some(bits)
    }
}

/// The bits of `mask` that are set in `src_val` but not in `dest_val`, if any.
pub open spec fn subset_violation(src_val: u64, dest_val: u64, mask: u64) -> Option<u64> {
    nonzero(only_in(src_val & mask, dest_val & mask))
}

/// The masked values, when they differ.
pub open spec fn eq_violation(src_val: u64, dest_val: u64, mask: u64) -> Option<(u64, u64)> {
    if src_val & mask != dest_val & mask {
        Some((src_val & mask, dest_val & mask))
    } else {
        None
    }
}

/// The masked values, when the source one is the greater.
pub open spec fn leq_violation(src_val: u64, dest_val: u64, mask: u64) -> Option<(u64, u64)> {
    if src_val & mask > dest_val & mask {
        Some((src_val & mask, dest_val & mask))
    } else {
        None
    }
}

// Feature bits of IA32_ARCH_CAPABILITIES (Intel SDM Vol.4 Table 2-2).
pub const RDCL_NO: u64 = 1 << 0;
pub const IBRS_ALL: u64 = 1 << 1;
pub const SKIP_L1_DFL_VMENTRY: u64 = 1 << 3;
pub const SSB_NO: u64 = 1 << 4;
pub const MDS_NO: u64 = 1 << 5;
pub const TSX_CONTROL: u64 = 1 << 7;
pub const TAA_NO: u64 = 1 << 8;
pub const MCU_CONTROL: u64 = 1 << 9;
pub const MISC_PACKAGE_CTLS: u64 = 1 << 10;
pub const ENERGY_FILTERING_CTL: u64 = 1 << 11;
pub const DOITM: u64 = 1 << 12;
pub const MCU_ENUMERATION: u64 = 1 << 16;
pub const FB_CLEAR: u64 = 1 << 17;
pub const FB_CLEAR_CTRL: u64 = 1 << 18;
pub const BHI_NO: u64 = 1 << 20;
pub const XAPIC_DISABLE_STATUS: u64 = 1 << 21;
pub const MCU_EXTENDED_SERVICE: u64 = 1 << 22;
pub const OVERCLOCKING_STATUS: u64 = 1 << 23;
pub const PBRSB_NO: u64 = 1 << 24;
pub const GDS_CTRL: u64 = 1 << 25;
pub const GDS_NO: u64 = 1 << 26;
pub const RFDS_NO: u64 = 1 << 27;
pub const RFDS_CLEAR: u64 = 1 << 28;
pub const IGN_UMONITOR_SUPPORT: u64 = 1 << 29;
pub const MON_UMON_MITG_SUPPORT: u64 = 1 << 30;
pub const PBOPT_SUPPORT: u64 = 1 << 32;

/// The bits of IA32_ARCH_CAPABILITIES whose source values must be a subset of the destination ones.
pub const ARCH_CAPABILITIES_SUBSET_BITS: u64 = RDCL_NO | IBRS_ALL | SKIP_L1_DFL_VMENTRY | SSB_NO
    | MDS_NO | TAA_NO | TSX_CONTROL | MCU_CONTROL | MISC_PACKAGE_CTLS | ENERGY_FILTERING_CTL | DOITM
    | MCU_ENUMERATION | FB_CLEAR | FB_CLEAR_CTRL | XAPIC_DISABLE_STATUS | MCU_EXTENDED_SERVICE
    | OVERCLOCKING_STATUS | GDS_CTRL | IGN_UMONITOR_SUPPORT | MON_UMON_MITG_SUPPORT | PBOPT_SUPPORT
    | RFDS_CLEAR | PBRSB_NO | GDS_NO | RFDS_NO | BHI_NO;

/// The outcome of [`check_arch_capabilities_compatibility`].
pub open spec fn arch_capabilities_result(src_val: u64, dest_val: u64) -> Result<(), ValueMismatch> {
    mismatch_result(
        src_val,
        dest_val,
        subset_violation(src_val, dest_val, ARCH_CAPABILITIES_SUBSET_BITS),
        None,
        None,
    )
}

/// Check that the values of MSR IA32_ARCH_CAPABILITIES are compatible.
///
/// If this check fails then programs that work when the value is `src_val`, may possibly
/// no longer work if the value is `dest_val`.
///
/// See: Ch.2 Table 2-2. IA-32 Architectural MSRs in Intel SDM Vol.4
pub fn check_arch_capabilities_compatibility(src_val: u64, dest_val: u64) -> (r: Result<
    (),
    ValueMismatch,
>)
    ensures
        r == arch_capabilities_result(src_val, dest_val),
{
    let mask: u64 = ARCH_CAPABILITIES_SUBSET_BITS;
    match check_subset(src_val & mask, dest_val & mask) {
        Err(only_in_src) => Err(
            ValueMismatch {
                src_val,
                dest_val,
                bits_only_in_src: Some(only_in_src),
                unequal: None,
                exceeds: None,
            },
        ),
        Ok(()) => Ok(()),
    }
}

/// The bits of IA32_VMX_BASIC that must be equal: bits 0 to 53, except bit 49.
pub const VMX_BASIC_EQUAL_BITS: u64 = 0x003d_ffff_ffff_ffff;

/// The capability bits 49, 54, 55 and 56 of IA32_VMX_BASIC, whose source values must be a subset
/// of the destination ones.
pub const VMX_BASIC_SUBSET_BITS: u64 = (1 << 54) | (1 << 55) | (1 << 56) | (1 << 49);

/// The outcome of [`check_vmx_basic_compatibility`].
pub open spec fn vmx_basic_result(src_val: u64, dest_val: u64) -> Result<(), ValueMismatch> {
    mismatch_result(
        src_val,
        dest_val,
        subset_violation(src_val, dest_val, VMX_BASIC_SUBSET_BITS),
        eq_violation(src_val, dest_val, VMX_BASIC_EQUAL_BITS),
        None,
    )
}

/// Check that the values of MSR IA32_VMX_BASIC are compatible.
///
/// See Intel SDM Vol.3D A.1 for more information about the IA32_VMX_BASIC MSR
pub fn check_vmx_basic_compatibility(src_val: u64, dest_val: u64) -> (r: Result<(), ValueMismatch>)
    ensures
        r == vmx_basic_result(src_val, dest_val),
{
    let req_eq_mask: u64 = VMX_BASIC_EQUAL_BITS;
    let src_req_eq = src_val & req_eq_mask;
    let dest_req_eq = dest_val & req_eq_mask;
    let unequal = if src_req_eq != dest_req_eq {
        Some((src_req_eq, dest_req_eq))
    } else {
        None
    };
    let req_subset_eq_mask: u64 = VMX_BASIC_SUBSET_BITS;
    let src_val_seq = req_subset_eq_mask & src_val;
    let dest_val_seq = req_subset_eq_mask & dest_val;
    assert(req_subset_eq_mask & src_val == src_val & req_subset_eq_mask) by (bit_vector);
    assert(req_subset_eq_mask & dest_val == dest_val & req_subset_eq_mask) by (bit_vector);
    let subset = check_subset(src_val_seq, dest_val_seq);
    let bits_only_in_src = match subset {
        Err(bits) => Some(bits),
        Ok(()) => None,
    };
    if unequal.is_some() || bits_only_in_src.is_some() {
        Err(ValueMismatch { src_val, dest_val, bits_only_in_src, unequal, exceeds: None })
    } else {
        Ok(())
    }
}

/// The outcome of a check of a VMX control MSR with a default1 class that failed.
///
/// The check requires:
/// 1. For any X < 32: if bit X of the source value is 0 then bit X of the destination value is also 0.
/// 2. For any X >= 32: if bit X of the source value is 1 then bit X of the destination value is also 1.
#[derive(Clone, Copy, Debug, PartialEq, Eq)]
pub struct CtlsCheck {
    /// The bits below 32 that are 0 only in the source value, if any.
    pub bitset_only_zero_src_lo: Option<u64>,
    /// The bits from 32 on that are 1 only in the source value, if any.
    pub bitset_only_one_src_hi: Option<u64>,
}

/// The low 32 bits.
pub const LO_HALF: u64 = 0xffff_ffff;

/// The high 32 bits.
pub const HI_HALF: u64 = 0xffff_ffff_0000_0000;

/// The outcome of [`check_negative_subset_lo_and_subset_hi`].
pub open spec fn ctls_result(src_val: u64, dest_val: u64) -> Result<(), CtlsCheck> {
    let lo = nonzero(only_in(!src_val & LO_HALF, !dest_val & LO_HALF));
    let hi = nonzero(only_in(src_val & HI_HALF, dest_val & HI_HALF));
    if lo is None && hi is None {
        Ok(())
    } else {
        Err(CtlsCheck { bitset_only_zero_src_lo: lo, bitset_only_one_src_hi: hi })
    }
}

/// Checks the allowed settings of a VMX control MSR with a default1 class: the low half of the
/// source value must not allow a control to be 0 that the destination requires to be 1, and the
/// high half must not allow a control to be 1 that the destination requires to be 0.
pub fn check_negative_subset_lo_and_subset_hi(src_val: u64, dest_val: u64) -> (r: Result<
    (),
    CtlsCheck,
>)
    ensures
        r == ctls_result(src_val, dest_val),
{
    assert(1u64 << 32u64 == 0x1_0000_0000u64) by (bit_vector);
    let lo_mask: u64 = (1u64 << 32u64) - 1;
    let hi_mask = !lo_mask;
    assert(!LO_HALF == HI_HALF) by (bit_vector);
    let lo_check = check_subset((!src_val) & lo_mask, (!dest_val) & lo_mask);
    let hi_check = check_subset(src_val & hi_mask, dest_val & hi_mask);
    if lo_check.is_ok() && hi_check.is_ok() {
        Ok(())
    } else {
        let bitset_only_zero_src_lo = match lo_check {
            Err(bits) => Some(bits),
            Ok(()) => None,
        };
        let bitset_only_one_src_hi = match hi_check {
            Err(bits) => Some(bits),
            Ok(()) => None,
        };
        Err(CtlsCheck { bitset_only_zero_src_lo, bitset_only_one_src_hi })
    }
}

/// The capability bits of IA32_VMX_MISC whose source values must be a subset of the destination ones.
pub const VMX_MISC_SUBSET_BITS: u64 = (1 << 5) | (1 << 6) | (1 << 7) | (1 << 8) | (1 << 14) | (1 << 15)
    | (1 << 28) | (1 << 29) | (1 << 30);

/// The outcome of [`check_vmx_misc_msr`]: the capability bits must be a subset, bits 16 to 24
/// must be equal and the MAX_MSR_STORE_LISTS field (bits 25 to 27) may not be greater on the
/// source.
pub open spec fn vmx_misc_result(src_val: u64, dest_val: u64) -> Result<(), ValueMismatch> {
    mismatch_result(
        src_val,
        dest_val,
        subset_violation(src_val, dest_val, VMX_MISC_SUBSET_BITS),
        eq_violation(src_val, dest_val, range_mask(16, 24)),
        leq_violation(src_val, dest_val, range_mask(25, 27)),
    )
}

/// Check that the values of MSR IA32_VMX_MISC are compatible.
///
/// See Intel SDM Vol.3D A.6 for more information about the IA32_VMX_MISC MSR
pub fn check_vmx_misc_msr(src_value: u64, dest_value: u64) -> (r: Result<(), ValueMismatch>)
    ensures
        r == vmx_misc_result(src_value, dest_value),
{
    let subset_eq_check_mask: u64 = VMX_MISC_SUBSET_BITS;
    assert(subset_eq_check_mask & src_value == src_value & subset_eq_check_mask) by (bit_vector);
    assert(subset_eq_check_mask & dest_value == dest_value & subset_eq_check_mask) by (bit_vector);
    let bits_only_in_src = match check_subset(
        subset_eq_check_mask & src_value,
        subset_eq_check_mask & dest_value,
    ) {
        Err(only_in_src) => Some(only_in_src),
        Ok(()) => None,
    };

    let eq_mask = bit_range_mask(16, 24);
    let src_req_eq_val = src_value & eq_mask;
    let dest_req_eq_val = dest_value & eq_mask;
    let unequal = if src_req_eq_val != dest_req_eq_val {
        Some((src_req_eq_val, dest_req_eq_val))
    } else {
        None
    };

    let leq_mask = bit_range_mask(25, 27);
    let src_req_leq = src_value & leq_mask;
    let dest_req_leq = dest_value & leq_mask;
    let exceeds = if src_req_leq > dest_req_leq {
        Some((src_req_leq, dest_req_leq))
    } else {
        None
    };

    if bits_only_in_src.is_some() || unequal.is_some() || exceeds.is_some() {
        Err(ValueMismatch { src_val: src_value, dest_val: dest_value, bits_only_in_src, unequal, exceeds })
    } else {
        Ok(())
    }
}

/// The outcome of [`check_cr_i_compatibility`]: no bit may be allowed to be 0 in the control
/// register on the source while it is fixed to 1 on the destination.
pub open spec fn cr_fixed0_result(src_fixed0: u64, dest_fixed0: u64) -> Result<(), ValueMismatch> {
    mismatch_result(src_fixed0, dest_fixed0, nonzero(only_in(!src_fixed0, !dest_fixed0)), None, None)
}

/// Check compatibility of MSRs IA32_VMX_CR{I}_FIXED0 for I = 0, 4.
///
/// See Intel SDM Vol.3D A.7 & A.8 for more information about these MSRs.
///
/// NOTE: The compatibility of CR{I}_FIXED1 needs no check because CPUID ensures it.
pub fn check_cr_i_compatibility<const I: u8>(src_fixed0: u64, dest_fixed0: u64) -> (r: Result<
    (),
    ValueMismatch,
>)
    requires
        I == 0 || I == 4,
    ensures
        r == cr_fixed0_result(src_fixed0, dest_fixed0),
{
    match check_subset(!src_fixed0, !dest_fixed0) {
        Err(only_zero_in_src) => Err(
            ValueMismatch {
                src_val: src_fixed0,
                dest_val: dest_fixed0,
                bits_only_in_src: Some(only_zero_in_src),
                unequal: None,
                exceeds: None,
            },
        ),
        Ok(()) => Ok(()),
    }
}

/// The outcome of [`check_vmx_vmcs_enum_compatibility`]: the MAX_INDEX field (bits 1 to 9) may
/// not be greater on the source.
pub open spec fn vmcs_enum_result(src_value: u64, dest_value: u64) -> Result<(), ValueMismatch> {
    mismatch_result(src_value, dest_value, None, None, leq_violation(src_value, dest_value, range_mask(1, 9)))
}

/// Check compatibility of MSRs IA32_VMX_VMCS_ENUM.
///
/// See Intel SDM Vol.3D A.9 for more information about IA32_VMX_VMCS_ENUM.
pub fn check_vmx_vmcs_enum_compatibility(src_value: u64, dest_value: u64) -> (r: Result<
    (),
    ValueMismatch,
>)
    ensures
        r == vmcs_enum_result(src_value, dest_value),
{
    let mask = bit_range_mask(1, 9);
    let src_req_leq = src_value & mask;
    let dest_req_leq = dest_value & mask;
    if src_req_leq > dest_req_leq {
        Err(
            ValueMismatch {
                src_val: src_value,
                dest_val: dest_value,
                bits_only_in_src: None,
                unequal: None,
                exceeds: Some((src_req_leq, dest_req_leq)),
            },
        )
    } else {
        Ok(())
    }
}

/// The capability bits 0 to 43 of IA32_VMX_EPT_VPID_CAP.
pub const EPT_VPID_SUBSET_BITS: u64 = 0x0000_0fff_ffff_ffff;

/// The outcome of [`check_vpid_and_ept_capabilities`]: the capability bits 0 to 43 must be a
/// subset and the maximum HLAT prefix size (bits 48 to 53) may not be greater on the source.
pub open spec fn ept_vpid_result(src_value: u64, dest_value: u64) -> Result<(), ValueMismatch> {
    mismatch_result(
        src_value,
        dest_value,
        subset_violation(src_value, dest_value, EPT_VPID_SUBSET_BITS),
        None,
        leq_violation(src_value, dest_value, range_mask(48, 53)),
    )
}

/// Check compatibility of MSRs IA32_VMX_EPT_VPID_CAP.
///
/// See Intel SDM Vol.3D A.10 for more information about IA32_VMX_EPT_VPID_CAP.
/// The MSR exists only if IA32_VMX_PROCBASED_CTLS[63] & (IA32_VMX_PROCBASED_CTLS2[33] | IA32_VMX_PROCBASED_CTLS2[37]).
pub fn check_vpid_and_ept_capabilities(src_value: u64, dest_value: u64) -> (r: Result<
    (),
    ValueMismatch,
>)
    ensures
        r == ept_vpid_result(src_value, dest_value),
{
    assert(1u64 << 44u64 == 0x1000_0000_0000u64) by (bit_vector);
    let subset_eq_mask: u64 = (1u64 << 44u64) - 1;
    let bits_only_in_src = match check_subset(src_value & subset_eq_mask, dest_value & subset_eq_mask) {
        Err(bits_only_in_src) => Some(bits_only_in_src),
        Ok(()) => None,
    };

    let leq_mask = bit_range_mask(48, 53);
    let src_req_leq = src_value & leq_mask;
    let dest_req_leq = dest_value & leq_mask;
    let exceeds = if src_req_leq > dest_req_leq {
        Some((src_req_leq, dest_req_leq))
    } else {
        None
    };
    if bits_only_in_src.is_some() || exceeds.is_some() {
        Err(
            ValueMismatch {
                src_val: src_value,
                dest_val: dest_value,
                bits_only_in_src,
                unequal: None,
                exceeds,
            },
        )
    } else {
        Ok(())
    }
}

} // verus!
