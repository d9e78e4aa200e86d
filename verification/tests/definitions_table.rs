use arch::architectural_msrs::{
    forbidden_ia32_msr_ranges, permitted_ia32_msrs, read_only_ia32_msrs, read_write_ia32_msrs,
    write_only_ia32_msrs, IA32_BARRIER, IA32_MCU_CONTROL, IA32_P5_MC_ADDR,
    IA32_TIME_STAMP_COUNTER, IA32_X2APIC_SELF_IPI,
};
use arch::definitions::{max_msr_store_lists_def, msr_definitions, ProfilePolicy, RegisterAddress};
use arch::intel_table::intel_msr_feature_definitions;

#[test]
fn feature_table_lists_every_feature_msr_once() {
    let table = intel_msr_feature_definitions();
    assert_eq!(table.len(), 24);
    let addresses: Vec<u32> = table.iter().map(|(a, _)| a.0).collect();
    let mut sorted = addresses.clone();
    sorted.sort();
    sorted.dedup();
    assert_eq!(sorted.len(), 24);
    assert_eq!(addresses[0], RegisterAddress::IA32_BIOS_SIGN_ID);
    assert_eq!(addresses[23], RegisterAddress::MSR_PLATFORM_INFO);
    let total: usize = table.iter().map(|(_, d)| d.len()).sum();
    assert_eq!(total, 558);
}

#[test]
fn feature_table_fields_are_ordered_and_disjoint() {
    for (_, defs) in intel_msr_feature_definitions() {
        for d in &defs {
            assert!(d.bits_range.0 <= d.bits_range.1 && d.bits_range.1 < 64);
        }
        for w in defs.windows(2) {
            assert!(w[0].bits_range.1 < w[1].bits_range.0);
        }
    }
}

#[test]
fn msr_definitions_looks_up_by_address() {
    let misc = msr_definitions(RegisterAddress::IA32_VMX_MISC);
    assert_eq!(misc.len(), 13);
    assert_eq!(misc[8].short, "MAX_MSR_STORE_LISTS");
    assert_eq!(misc[8].bits_range, (25, 27));
    let arch_caps = msr_definitions(RegisterAddress::IA32_ARCH_CAPABILITIES);
    assert_eq!(arch_caps.len(), 33);
    assert_eq!(arch_caps[0].short, "RDCL_NO");
    assert_eq!(arch_caps[7].policy, ProfilePolicy::Static(0));
    assert_eq!(arch_caps[32].bits_range, (62, 62));
    assert_eq!(arch_caps[32].policy, ProfilePolicy::Passthrough);
    let perf = msr_definitions(RegisterAddress::IA32_PERF_CAPABILITIES);
    assert_eq!(perf.len(), 1);
    assert_eq!(perf[0].policy, ProfilePolicy::Deny);
    let enum_defs = msr_definitions(RegisterAddress::IA32_VMX_VMCS_ENUM);
    assert_eq!(enum_defs.len(), 1);
    assert_eq!(enum_defs[0].short, "MAX_INDEX");
    assert_eq!(enum_defs[0].bits_range, (1, 9));
}

#[test]
fn max_msr_store_lists_definition() {
    let def = max_msr_store_lists_def();
    assert_eq!(def.short, "MAX_MSR_STORE_LISTS");
    assert_eq!(def.bits_range, (25, 27));
    assert_eq!(def.policy, ProfilePolicy::Inherit);
}

#[test]
fn permitted_msrs_concatenate_the_three_lists() {
    let ro = read_only_ia32_msrs();
    let wo = write_only_ia32_msrs();
    let rw = read_write_ia32_msrs();
    assert_eq!((ro.len(), wo.len(), rw.len()), (39, 4, 199));
    let permitted = permitted_ia32_msrs();
    assert_eq!(permitted.len(), 242);
    let mut expected = ro.clone();
    expected.extend(wo.iter());
    expected.extend(rw.iter());
    assert_eq!(permitted, expected);
    assert_eq!(permitted[0], IA32_BARRIER);
    assert_eq!(permitted[42], IA32_X2APIC_SELF_IPI);
    assert_eq!(permitted[43], IA32_TIME_STAMP_COUNTER);
}

#[test]
fn forbidden_ranges_list() {
    let forbidden = forbidden_ia32_msr_ranges();
    assert_eq!(forbidden.len(), 229);
    assert_eq!(forbidden[0], IA32_P5_MC_ADDR);
    assert_eq!(IA32_P5_MC_ADDR, (0x0, 0x0));
    // The range of IA32_MCU_CONTROL has its end written in decimal, so it is empty.
    assert_eq!(IA32_MCU_CONTROL, (0x1406, 1406));
}

#[test]
fn permitted_feature_and_forbidden_msrs_do_not_overlap() {
    let forbidden = forbidden_ia32_msr_ranges();
    let in_forbidden = |msr: u32| forbidden.iter().any(|&(lo, hi)| lo <= msr && msr <= hi);
    let permitted = permitted_ia32_msrs();
    assert!(permitted.iter().all(|&m| !in_forbidden(m)));
    for (addr, _) in intel_msr_feature_definitions() {
        assert!(!in_forbidden(addr.0));
        assert!(!permitted.contains(&addr.0));
    }
}
