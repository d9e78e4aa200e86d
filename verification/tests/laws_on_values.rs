use arch::bits::check_subset;
use arch::checks::{check_negative_subset_lo_and_subset_hi, check_vmx_misc_msr};
use arch::compat::check_feature_msr_compatibility;
use arch::definitions::RegisterAddress;
use std::collections::HashMap;

#[test]
fn subset_check_is_bitwise() {
    let (s, d) = (0b0110_1001u64, 0b1110_1011u64);
    assert_eq!(check_subset(s, d), Ok(()));
    assert!((0..64).all(|i| (s >> i) & 1 == 0 || (d >> i) & 1 == 1));
    let (s, d) = (0b1001u64, 0b0011u64);
    assert_eq!(check_subset(s, d), Err(0b1000));
}

#[test]
fn value_checks_are_reflexive_and_transitive() {
    let (a, b, c) = (0x2000_0065u64 | (1 << 25), 0x2000_0165u64 | (2 << 25), 0x3000_01e5u64 | (2 << 25));
    assert_eq!(check_vmx_misc_msr(a, a), Ok(()));
    assert_eq!(check_vmx_misc_msr(a, b), Ok(()));
    assert_eq!(check_vmx_misc_msr(b, c), Ok(()));
    assert_eq!(check_vmx_misc_msr(a, c), Ok(()));
    assert!(check_vmx_misc_msr(c, a).is_err());
    let (x, y, z) = (0x0000_0001_0000_00ffu64, 0x0000_0003_0000_000fu64, 0x0000_0007_0000_0007u64);
    assert_eq!(check_negative_subset_lo_and_subset_hi(x, y), Ok(()));
    assert_eq!(check_negative_subset_lo_and_subset_hi(y, z), Ok(()));
    assert_eq!(check_negative_subset_lo_and_subset_hi(x, z), Ok(()));
}

#[test]
fn feature_compatibility_is_transitive_on_same_registers() {
    let mk = |vmfunc: u64, enum_val: u64| {
        let mut m = HashMap::new();
        m.insert(RegisterAddress::IA32_VMX_VMFUNC, vmfunc);
        m.insert(RegisterAddress::IA32_VMX_VMCS_ENUM, enum_val);
        m
    };
    let (a, b, c) = (mk(0x1, 0x2a), mk(0x3, 0x2c), mk(0x7, 0x2e));
    assert_eq!(check_feature_msr_compatibility(&a, &a), Ok(()));
    assert_eq!(check_feature_msr_compatibility(&a, &b), Ok(()));
    assert_eq!(check_feature_msr_compatibility(&b, &c), Ok(()));
    assert_eq!(check_feature_msr_compatibility(&a, &c), Ok(()));
    assert_eq!(check_feature_msr_compatibility(&c, &a).unwrap_err().len(), 2);
}
