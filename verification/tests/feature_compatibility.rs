use arch::checks::{CtlsCheck, ValueMismatch};
use arch::compat::{
    check_feature_msr_compatibility, check_vmx_ctls_with_default1_class, ControlsMismatch,
    MsrIncompatibility,
};
use arch::definitions::RegisterAddress;
use std::collections::HashMap;

/// A plausible set of MSR-based features of a VMX-capable CPU.
fn sample_msrs() -> HashMap<u32, u64> {
    let mut m = HashMap::new();
    m.insert(RegisterAddress::IA32_ARCH_CAPABILITIES, 0x0c00_0000_2de0_02eb);
    m.insert(RegisterAddress::IA32_VMX_BASIC, 0x00da_0400_0000_0004);
    m.insert(RegisterAddress::IA32_VMX_PINBASED_CTLS, 0x0000_00ff_0000_0016);
    m.insert(RegisterAddress::IA32_VMX_PROCBASED_CTLS, 0xfff9_fffe_0401_e172);
    m.insert(RegisterAddress::IA32_VMX_EXIT_CTLS, 0x003f_ffff_0003_6dff);
    m.insert(RegisterAddress::IA32_VMX_ENTRY_CTLS, 0x0000_f3ff_0000_11ff);
    m.insert(RegisterAddress::IA32_VMX_MISC, 0x0000_0000_2000_0065);
    m.insert(RegisterAddress::IA32_VMX_CR0_FIXED0, 0x8000_0021);
    m.insert(RegisterAddress::IA32_VMX_CR4_FIXED0, 0x2000);
    m.insert(RegisterAddress::IA32_VMX_VMCS_ENUM, 0x2e);
    m.insert(RegisterAddress::IA32_VMX_PROCBASED_CTLS2, 0x0053_7bff_0000_0000);
    m.insert(RegisterAddress::IA32_VMX_EPT_VPID_CAP, 0x0000_0f01_0673_4141);
    m.insert(RegisterAddress::IA32_VMX_TRUE_PINBASED_CTLS, 0x0000_00ff_0000_0016);
    m.insert(RegisterAddress::IA32_VMX_TRUE_PROCBASED_CTLS, 0xfff9_fffe_0401_e172);
    m.insert(RegisterAddress::IA32_VMX_TRUE_EXIT_CTLS, 0x003f_ffff_0003_6dfb);
    m.insert(RegisterAddress::IA32_VMX_TRUE_ENTRY_CTLS, 0x0000_f3ff_0000_11fb);
    m.insert(RegisterAddress::IA32_VMX_VMFUNC, 0x1);
    m
}

#[test]
fn empty_feature_sets_are_compatible() {
    let empty: HashMap<u32, u64> = HashMap::new();
    assert_eq!(check_feature_msr_compatibility(&empty, &empty), Ok(()));
}

#[test]
fn feature_set_is_compatible_with_itself() {
    let m = sample_msrs();
    assert_eq!(check_feature_msr_compatibility(&m, &m), Ok(()));
}

#[test]
fn source_with_fewer_features_is_compatible() {
    let src = sample_msrs();
    let mut dest = sample_msrs();
    // The destination supports one more VM function and one more secondary control.
    dest.insert(RegisterAddress::IA32_VMX_VMFUNC, 0x3);
    dest.insert(RegisterAddress::IA32_VMX_PROCBASED_CTLS2, 0x0053_7bff_0000_0000 | (1 << 60));
    assert_eq!(check_feature_msr_compatibility(&src, &dest), Ok(()));
    // The other way round both MSRs are reported, in the order of the checks.
    assert_eq!(
        check_feature_msr_compatibility(&dest, &src),
        Err(vec![
            MsrIncompatibility::Value {
                register: RegisterAddress::IA32_VMX_PROCBASED_CTLS2,
                mismatch: ValueMismatch {
                    src_val: 0x0053_7bff_0000_0000 | (1 << 60),
                    dest_val: 0x0053_7bff_0000_0000,
                    bits_only_in_src: Some(1 << 60),
                    unequal: None,
                    exceeds: None,
                },
            },
            MsrIncompatibility::Value {
                register: RegisterAddress::IA32_VMX_VMFUNC,
                mismatch: ValueMismatch {
                    src_val: 0x3,
                    dest_val: 0x1,
                    bits_only_in_src: Some(0x2),
                    unequal: None,
                    exceeds: None,
                },
            },
        ])
    );
}

#[test]
fn all_failed_checks_are_reported() {
    let src = sample_msrs();
    let mut dest = sample_msrs();
    dest.insert(RegisterAddress::IA32_ARCH_CAPABILITIES, 0x0c00_0000_2de0_02ea);
    dest.insert(RegisterAddress::IA32_VMX_VMCS_ENUM, 0x2c);
    dest.insert(RegisterAddress::IA32_VMX_CR0_FIXED0, 0x8000_0023);
    let r = check_feature_msr_compatibility(&src, &dest).unwrap_err();
    let registers: Vec<u32> = r
        .iter()
        .map(|f| match f {
            MsrIncompatibility::Value { register, .. } => *register,
            MsrIncompatibility::Controls(c) => c.ctrl_reg_address,
        })
        .collect();
    assert_eq!(
        registers,
        vec![
            RegisterAddress::IA32_ARCH_CAPABILITIES,
            RegisterAddress::IA32_VMX_CR0_FIXED0,
            RegisterAddress::IA32_VMX_VMCS_ENUM,
        ]
    );
}

#[test]
fn msrs_present_on_one_side_only_are_not_compared() {
    let src = sample_msrs();
    let mut dest = sample_msrs();
    dest.remove(&RegisterAddress::IA32_VMX_MISC);
    dest.remove(&RegisterAddress::IA32_VMX_EPT_VPID_CAP);
    assert_eq!(check_feature_msr_compatibility(&src, &dest), Ok(()));
}

#[test]
fn controls_missing_on_destination_are_an_error() {
    let mut src = HashMap::new();
    let dest: HashMap<u32, u64> = HashMap::new();
    // Without IA32_VMX_BASIC on both sides, the IA32_VMX_*_CTLS registers are read.
    src.insert(RegisterAddress::IA32_VMX_EXIT_CTLS, 0x003f_ffff_0003_6dfb);
    assert_eq!(
        check_feature_msr_compatibility(&src, &dest),
        Err(vec![MsrIncompatibility::Controls(ControlsMismatch {
            ctrl_reg_address: RegisterAddress::IA32_VMX_EXIT_CTLS,
            true_ctrl_reg_address: RegisterAddress::IA32_VMX_TRUE_EXIT_CTLS,
            src_reg_address: RegisterAddress::IA32_VMX_EXIT_CTLS,
            dest_reg_address: RegisterAddress::IA32_VMX_EXIT_CTLS,
            src_val: Some(0x003f_ffff_0003_6dfb),
            dest_val: None,
            mismatch: None,
        })])
    );
    // The other way round nothing is compared.
    assert_eq!(check_feature_msr_compatibility(&dest, &src), Ok(()));
}

#[test]
fn controls_register_is_selected_by_vmx_basic_bit_55() {
    let mut src = HashMap::new();
    let mut dest = HashMap::new();
    src.insert(RegisterAddress::IA32_VMX_TRUE_PINBASED_CTLS, 0x0000_007f_0000_0016);
    dest.insert(RegisterAddress::IA32_VMX_TRUE_PINBASED_CTLS, 0x0000_00ff_0000_0016);
    // Flag set: IA32_VMX_TRUE_PINBASED_CTLS is read on both sides.
    assert_eq!(
        check_vmx_ctls_with_default1_class(
            &src,
            &dest,
            RegisterAddress::IA32_VMX_PINBASED_CTLS,
            RegisterAddress::IA32_VMX_TRUE_PINBASED_CTLS,
            true,
            true,
        ),
        Ok(())
    );
    assert_eq!(
        check_vmx_ctls_with_default1_class(
            &dest,
            &src,
            RegisterAddress::IA32_VMX_PINBASED_CTLS,
            RegisterAddress::IA32_VMX_TRUE_PINBASED_CTLS,
            true,
            true,
        ),
        Err(ControlsMismatch {
            ctrl_reg_address: RegisterAddress::IA32_VMX_PINBASED_CTLS,
            true_ctrl_reg_address: RegisterAddress::IA32_VMX_TRUE_PINBASED_CTLS,
            src_reg_address: RegisterAddress::IA32_VMX_TRUE_PINBASED_CTLS,
            dest_reg_address: RegisterAddress::IA32_VMX_TRUE_PINBASED_CTLS,
            src_val: Some(0x0000_00ff_0000_0016),
            dest_val: Some(0x0000_007f_0000_0016),
            mismatch: Some(CtlsCheck {
                bitset_only_zero_src_lo: None,
                bitset_only_one_src_hi: Some(0x0000_0080_0000_0000),
            }),
        })
    );
    // Flag clear: IA32_VMX_PINBASED_CTLS is read, which neither side has.
    assert_eq!(
        check_vmx_ctls_with_default1_class(
            &dest,
            &src,
            RegisterAddress::IA32_VMX_PINBASED_CTLS,
            RegisterAddress::IA32_VMX_TRUE_PINBASED_CTLS,
            false,
            false,
        ),
        Ok(())
    );
    // The same comparison through the whole check, with IA32_VMX_BASIC bit 55 set on both sides.
    let basic: u64 = 1 << 55;
    dest.insert(RegisterAddress::IA32_VMX_BASIC, basic);
    src.insert(RegisterAddress::IA32_VMX_BASIC, basic);
    assert_eq!(check_feature_msr_compatibility(&src, &dest), Ok(()));
    assert_eq!(check_feature_msr_compatibility(&dest, &src).unwrap_err().len(), 1);
}

#[test]
fn plain_controls_are_checked_without_true_controls() {
    let src = HashMap::from([(0x480u32, 0u64), (0x481, 0)]);
    let dest = HashMap::from([(0x480u32, 0u64), (0x481, 1)]);
    let failures = check_feature_msr_compatibility(&src, &dest).unwrap_err();
    assert_eq!(failures.len(), 1);
    match failures[0] {
        MsrIncompatibility::Controls(c) => {
            assert_eq!(c.src_reg_address, 0x481);
            assert_eq!(c.dest_reg_address, 0x481);
            assert_eq!(
                c.mismatch,
                Some(CtlsCheck { bitset_only_zero_src_lo: Some(1), bitset_only_one_src_hi: None })
            );
        }
        _ => panic!("expected a controls incompatibility"),
    }
}

#[test]
fn true_controls_are_checked_when_reported() {
    let src = HashMap::from([(0x480u32, 1u64 << 55), (0x481, 1), (0x48d, 0)]);
    let dest = HashMap::from([(0x480u32, 1u64 << 55), (0x481, 1), (0x48d, 1)]);
    let failures = check_feature_msr_compatibility(&src, &dest).unwrap_err();
    assert_eq!(failures.len(), 1);
    match failures[0] {
        MsrIncompatibility::Controls(c) => {
            assert_eq!(c.src_reg_address, 0x48d);
            assert_eq!(c.dest_reg_address, 0x48d);
        }
        _ => panic!("expected a controls incompatibility"),
    }
}

#[test]
fn unchecked_register_changes_do_not_change_the_result() {
    let src = sample_msrs();
    let mut dest = sample_msrs();
    dest.insert(RegisterAddress::IA32_VMX_VMCS_ENUM, 0x2c);
    let expected = check_feature_msr_compatibility(&src, &dest);
    let mut src2 = src.clone();
    let mut dest2 = dest.clone();
    src2.insert(RegisterAddress::IA32_VMX_CR0_FIXED1, 0xffff_ffff);
    dest2.insert(RegisterAddress::IA32_VMX_CR4_FIXED1, 0);
    dest2.insert(RegisterAddress::IA32_PERF_CAPABILITIES, 0x4c3);
    src2.insert(0x1234, 7);
    assert_eq!(check_feature_msr_compatibility(&src2, &dest2), expected);
}

#[test]
fn unchecked_registers_are_ignored() {
    let mut src = HashMap::new();
    let dest: HashMap<u32, u64> = HashMap::new();
    src.insert(RegisterAddress::IA32_BIOS_SIGN_ID, 0xf0_0000_0000);
    src.insert(RegisterAddress::IA32_PERF_CAPABILITIES, 0x4c3);
    src.insert(RegisterAddress::MSR_PLATFORM_INFO, 0x8000_0c00);
    let mut dest2 = dest.clone();
    dest2.insert(RegisterAddress::IA32_PERF_CAPABILITIES, 0);
    dest2.insert(RegisterAddress::MSR_PLATFORM_INFO, 0);
    dest2.insert(RegisterAddress::IA32_BIOS_SIGN_ID, 0);
    assert_eq!(check_feature_msr_compatibility(&src, &dest), Ok(()));
    assert_eq!(check_feature_msr_compatibility(&src, &dest2), Ok(()));
}
