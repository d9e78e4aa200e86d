use arch::checks::{
    check_arch_capabilities_compatibility, check_cr_i_compatibility,
    check_negative_subset_lo_and_subset_hi, check_vmx_basic_compatibility, check_vmx_misc_msr,
    check_vmx_vmcs_enum_compatibility, check_vpid_and_ept_capabilities, CtlsCheck, ValueMismatch,
    ARCH_CAPABILITIES_SUBSET_BITS, VMX_BASIC_EQUAL_BITS,
};

#[test]
fn arch_capabilities_subset_of_checked_bits() {
    // RDCL_NO and MDS_NO on both sides, plus more on the destination.
    assert_eq!(check_arch_capabilities_compatibility(0b10_0001, 0b11_0011), Ok(()));
    // Bit 2 (RSBA) and bit 62 (ITS_NO) are not checked.
    assert_eq!(check_arch_capabilities_compatibility((1 << 2) | (1 << 62), 0), Ok(()));
    // PBOPT_SUPPORT (bit 32) only on the source.
    assert_eq!(
        check_arch_capabilities_compatibility((1 << 32) | 1, 1),
        Err(ValueMismatch {
            src_val: (1 << 32) | 1,
            dest_val: 1,
            bits_only_in_src: Some(1 << 32),
            unequal: None,
            exceeds: None,
        })
    );
    assert_eq!(ARCH_CAPABILITIES_SUBSET_BITS, 0x1_7ff7_1fbb);
}

#[test]
fn vmx_basic_requires_equal_low_bits_and_capability_subset() {
    let base: u64 = 0x00d8_0400_0000_0004;
    assert_eq!(check_vmx_basic_compatibility(base, base), Ok(()));
    // The revision identifier differs.
    assert_eq!(
        check_vmx_basic_compatibility(base, base + 1),
        Err(ValueMismatch {
            src_val: base,
            dest_val: base + 1,
            bits_only_in_src: None,
            unequal: Some((base & VMX_BASIC_EQUAL_BITS, (base + 1) & VMX_BASIC_EQUAL_BITS)),
            exceeds: None,
        })
    );
    // Bit 49 (DUAL_MON) is not required to be equal, but the source may not have it alone.
    assert_eq!(check_vmx_basic_compatibility(base, base | (1 << 49)), Ok(()));
    assert_eq!(
        check_vmx_basic_compatibility(base | (1 << 49), base),
        Err(ValueMismatch {
            src_val: base | (1 << 49),
            dest_val: base,
            bits_only_in_src: Some(1 << 49),
            unequal: None,
            exceeds: None,
        })
    );
    // Bit 56 is only on the source.
    assert_eq!(
        check_vmx_basic_compatibility((1 << 56) | base, base).unwrap_err().bits_only_in_src,
        Some(1 << 56)
    );
    // Bits above 56 are not checked.
    assert_eq!(check_vmx_basic_compatibility(base | (1 << 60), base), Ok(()));
    assert_eq!(VMX_BASIC_EQUAL_BITS, ((1u64 << 54) - 1) & !(1u64 << 49));
}

#[test]
fn ctls_low_half_negative_subset_high_half_subset() {
    // Low half: the destination may only require (set) what the source requires.
    assert_eq!(check_negative_subset_lo_and_subset_hi(0x16, 0x16), Ok(()));
    assert_eq!(check_negative_subset_lo_and_subset_hi(0x16, 0x06), Ok(()));
    assert_eq!(
        check_negative_subset_lo_and_subset_hi(0x06, 0x16),
        Err(CtlsCheck { bitset_only_zero_src_lo: Some(0x10), bitset_only_one_src_hi: None })
    );
    // High half: the source may only allow what the destination allows.
    assert_eq!(check_negative_subset_lo_and_subset_hi(0x1_0000_0000, 0x3_0000_0000), Ok(()));
    assert_eq!(
        check_negative_subset_lo_and_subset_hi(0x3_0000_0000, 0x1_0000_0000),
        Err(CtlsCheck { bitset_only_zero_src_lo: None, bitset_only_one_src_hi: Some(0x2_0000_0000) })
    );
    assert_eq!(
        check_negative_subset_lo_and_subset_hi(0x8000_0000_0000_0000, 0x1),
        Err(CtlsCheck {
            bitset_only_zero_src_lo: Some(0x1),
            bitset_only_one_src_hi: Some(0x8000_0000_0000_0000),
        })
    );
}

#[test]
fn vmx_misc_three_kinds_of_requirements() {
    let v: u64 = 0x0000_0000_2000_0000 | (1 << 5) | (3 << 16) | (2 << 25);
    assert_eq!(check_vmx_misc_msr(v, v), Ok(()));
    // Capability bit 6 only on the source.
    assert_eq!(
        check_vmx_misc_msr(v | (1 << 6), v),
        Err(ValueMismatch {
            src_val: v | (1 << 6),
            dest_val: v,
            bits_only_in_src: Some(1 << 6),
            unequal: None,
            exceeds: None,
        })
    );
    // Bits 16..=24 differ.
    assert_eq!(
        check_vmx_misc_msr(v, v & !(1 << 17)),
        Err(ValueMismatch {
            src_val: v,
            dest_val: v & !(1 << 17),
            bits_only_in_src: None,
            unequal: Some((3 << 16, 1 << 16)),
            exceeds: None,
        })
    );
    // MAX_MSR_STORE_LISTS may grow, but not shrink.
    assert_eq!(check_vmx_misc_msr(v, v + (1 << 25)), Ok(()));
    assert_eq!(
        check_vmx_misc_msr(v + (1 << 25), v),
        Err(ValueMismatch {
            src_val: v + (1 << 25),
            dest_val: v,
            bits_only_in_src: None,
            unequal: None,
            exceeds: Some((3 << 25, 2 << 25)),
        })
    );
    // Unchecked bits (0..=4, 32..) may differ.
    assert_eq!(check_vmx_misc_msr(v | 0x1f | (0xff << 32), v), Ok(()));
}

#[test]
fn cr_fixed0_reports_bits_fixed_only_on_dest() {
    assert_eq!(check_cr_i_compatibility::<0>(0x8000_0021, 0x8000_0021), Ok(()));
    assert_eq!(check_cr_i_compatibility::<0>(0x8000_0021, 0x21), Ok(()));
    assert_eq!(
        check_cr_i_compatibility::<4>(0x2000, 0x2001),
        Err(ValueMismatch {
            src_val: 0x2000,
            dest_val: 0x2001,
            bits_only_in_src: Some(0x1),
            unequal: None,
            exceeds: None,
        })
    );
}

#[test]
fn vmcs_enum_max_index_may_not_shrink() {
    assert_eq!(check_vmx_vmcs_enum_compatibility(0x2e, 0x34), Ok(()));
    assert_eq!(check_vmx_vmcs_enum_compatibility(0x2e, 0x2e), Ok(()));
    // Bit 0 and bits above 9 are ignored.
    assert_eq!(check_vmx_vmcs_enum_compatibility(0x2e | 1 | (1 << 10), 0x2e), Ok(()));
    assert_eq!(
        check_vmx_vmcs_enum_compatibility(0x34, 0x2e),
        Err(ValueMismatch {
            src_val: 0x34,
            dest_val: 0x2e,
            bits_only_in_src: None,
            unequal: None,
            exceeds: Some((0x34, 0x2e)),
        })
    );
}

#[test]
fn ept_vpid_capabilities_and_hlat_prefix() {
    let v: u64 = 0x0f01_0106_6f34_1141 & !(0xff << 48) | (2 << 48);
    assert_eq!(check_vpid_and_ept_capabilities(v, v), Ok(()));
    assert_eq!(
        check_vpid_and_ept_capabilities(v | 1, v & !1),
        Err(ValueMismatch {
            src_val: v | 1,
            dest_val: v & !1,
            bits_only_in_src: Some(1),
            unequal: None,
            exceeds: None,
        })
    );
    assert_eq!(
        check_vpid_and_ept_capabilities(v + (1 << 48), v),
        Err(ValueMismatch {
            src_val: v + (1 << 48),
            dest_val: v,
            bits_only_in_src: None,
            unequal: None,
            exceeds: Some((3 << 48, 2 << 48)),
        })
    );
    // Bits 44..=47 and 54.. are ignored.
    assert_eq!(check_vpid_and_ept_capabilities(v | (1 << 45) | (1 << 60), v), Ok(()));
}
