use arch::definitions::{msr_definitions, RegisterAddress, ValueDefinition};
use arch::diagnostics::{log_features_only_in_src, log_inequalities};

#[test]
fn features_only_in_src_are_matched_with_their_definitions() {
    let defs = msr_definitions(RegisterAddress::IA32_ARCH_CAPABILITIES);
    let entries = log_features_only_in_src((1 << 0) | (1 << 31) | (1 << 32), &defs);
    assert_eq!(entries.len(), 3);
    assert_eq!(entries[0].0, 0);
    assert_eq!(entries[0].1.unwrap().short, "RDCL_NO");
    // No definition describes bit 31.
    assert_eq!(entries[1].0, 31);
    assert!(entries[1].1.is_none());
    assert_eq!(entries[2].0, 32);
    assert_eq!(entries[2].1.unwrap().short, "PBOPT_SUPPORT");
    assert!(log_features_only_in_src(0, &defs).is_empty());
}

#[test]
fn first_matching_definition_is_reported() {
    let a = ValueDefinition {
        short: "A",
        description: "first",
        bits_range: (0, 7),
        policy: arch::definitions::ProfilePolicy::Inherit,
    };
    let b = ValueDefinition { short: "B", description: "second", bits_range: (4, 4), ..a };
    let entries = log_features_only_in_src(1 << 4, &[a, b]);
    assert_eq!(entries.len(), 1);
    assert_eq!(entries[0].1.unwrap().short, "A");
    let empty: [ValueDefinition; 0] = [];
    assert!(log_features_only_in_src(1 << 4, &empty)[0].1.is_none());
}

#[test]
fn inequalities_cover_every_definition() {
    let defs = msr_definitions(RegisterAddress::IA32_VMX_BASIC);
    let entries = log_inequalities(0x0000_0400_0000_0004, 0x0000_0800_0000_0004, &defs);
    assert_eq!(entries.len(), defs.len());
    assert_eq!(entries[0].0.short, "VMCS_REV_ID");
    assert_eq!((entries[0].1, entries[0].2), (0x4, 0x4));
    assert_eq!(entries[1].0.short, "REGION_SIZE");
    assert_eq!((entries[1].1, entries[1].2), (0x0000_0400_0000_0000, 0x0000_0800_0000_0000));
    assert!(log_inequalities(0x42, 0x42, &defs).is_empty());
}
