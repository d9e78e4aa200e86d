//! Lists of architectural MSRs (or more accurately MSR register addresses) that are permitted and
//! forbidden for use with CPU profiles.
//!
//! The CPU profile generation tool obtains all MSRs supported by both KVM and the hardware when
//! it runs and uses the permitted list to only record those that are permitted.
//!
//! The list of forbidden architectural MSRs is only used to rule out "false" new MSRs that
//! otherwise would require updating the CPU profile generation tool.
use vstd::prelude::*;

verus! {

// Read-only architectural MSRs that are permitted for CPU profiles.
/// (R/O)
pub const IA32_BARRIER: u32 = 0x2f;
/// MTRR Capability (R/O)
pub const IA32_MTRRCAP: u32 = 0xfe;
pub const IA32_FZM_DOMAIN_CONFIG: u32 = 0x83;
pub const IA32_FZM_RANGE_STARTADDR: u32 = 0x84;
pub const IA32_FZM_RANGE_ENDADDR: u32 = 0x85;
pub const IA32_FZM_RANGE_WRITESTATUS: u32 = 0x86;
pub const IA32_MCG_CAP: u32 = 0x179;
/// DCA Capability (R)
pub const IA32_PLATFORM_DCA_CAP: u32 = 0x1f8;
/// If set, CPU supports Prefetch-Hint type
pub const IA32_CPU_DCA_CAP: u32 = 0x1f9;
pub const IA32_MCU_STAGING_MBOX_ADDR: u32 = 0x7a5;
pub const IA32_X2APIC_APICID: u32 = 0x802;
pub const IA32_X2APIC_VERSION: u32 = 0x803;
pub const IA32_X2APIC_PPR: u32 = 0x80a;
pub const IA32_X2APIC_LDR: u32 = 0x80d;
pub const IA32_X2APIC_ISR0: u32 = 0x810;
pub const IA32_X2APIC_ISR1: u32 = 0x811;
pub const IA32_X2APIC_ISR2: u32 = 0x812;
pub const IA32_X2APIC_ISR3: u32 = 0x813;
pub const IA32_X2APIC_ISR4: u32 = 0x814;
pub const IA32_X2APIC_ISR5: u32 = 0x815;
pub const IA32_X2APIC_ISR6: u32 = 0x816;
pub const IA32_X2APIC_ISR7: u32 = 0x817;
pub const IA32_X2APIC_TMR0: u32 = 0x818;
pub const IA32_X2APIC_TMR1: u32 = 0x819;
pub const IA32_X2APIC_TMR2: u32 = 0x81a;
pub const IA32_X2APIC_TMR3: u32 = 0x81b;
pub const IA32_X2APIC_TMR4: u32 = 0x81c;
pub const IA32_X2APIC_TMR5: u32 = 0x81d;
pub const IA32_X2APIC_TMR6: u32 = 0x81e;
pub const IA32_X2APIC_TMR7: u32 = 0x81f;
pub const IA32_X2APIC_IRR0: u32 = 0x820;
pub const IA32_X2APIC_IRR1: u32 = 0x821;
pub const IA32_X2APIC_IRR2: u32 = 0x822;
pub const IA32_X2APIC_IRR3: u32 = 0x823;
pub const IA32_X2APIC_IRR4: u32 = 0x824;
pub const IA32_X2APIC_IRR5: u32 = 0x825;
pub const IA32_X2APIC_IRR6: u32 = 0x826;
pub const IA32_X2APIC_IRR7: u32 = 0x827;
pub const IA32_X2APIC_CUR_COUNT: u32 = 0x839;

// Readable and writable architectural MSRs that are permitted for CPU profiles.
pub const IA32_TIME_STAMP_COUNTER: u32 = 0x10;
pub const IA32_APIC_BASE: u32 = 0x1b;
pub const IA32_FEATURE_CONTROL: u32 = 0x3a;
/// Per Logical Processor TSC Adjust (R/Write to clear)
pub const IA32_TSC_ADJUST: u32 = 0x3b;
pub const IA32_SPEC_CTRL: u32 = 0x48;
pub const IA32_MCU_OPT_CTRL: u32 = 0x123;
/// SYSENTER_CS_MSR
pub const IA32_SYSENTER_CS: u32 = 0x174;
/// SYSENTER_ESP_MSR
pub const IA32_SYSENTER_ESP: u32 = 0x175;
/// SYSENTER_ESP_MSR
pub const IA32_SYSENTER_EIP: u32 = 0x176;
pub const IA32_MCG_STATUS: u32 = 0x17a;
pub const IA32_SMM_MONITOR_CTL: u32 = 0x9b;
/// Enable Misc. Processr Features
pub const IA32_MISC_ENABLE: u32 = 0x1a0;
pub const IA32_XFD: u32 = 0x1c4;
pub const IA32_XFD_ERR: u32 = 0x1c5;
pub const IA32_DCA_0_CAP: u32 = 0x1fa;
pub const IA32_MTRR_PHYSBASE0: u32 = 0x200;
pub const IA32_MTRR_PHYSMASK0: u32 = 0x201;
pub const IA32_MTRR_PHYSBASE1: u32 = 0x202;
pub const IA32_MTRR_PHYSMASK1: u32 = 0x203;
pub const IA32_MTRR_PHYSBASE2: u32 = 0x204;
pub const IA32_MTRR_PHYSMASK2: u32 = 0x205;
pub const IA32_MTRR_PHYSBASE3: u32 = 0x206;
pub const IA32_MTRR_PHYSMASK3: u32 = 0x207;
pub const IA32_MTRR_PHYSBASE4: u32 = 0x208;
pub const IA32_MTRR_PHYSMASK4: u32 = 0x209;
pub const IA32_MTRR_PHYSBASE5: u32 = 0x20a;
pub const IA32_MTRR_PHYSMASK5: u32 = 0x20b;
pub const IA32_MTRR_PHYSBASE6: u32 = 0x20c;
pub const IA32_MTRR_PHYSMASK6: u32 = 0x20d;
pub const IA32_MTRR_PHYSBASE7: u32 = 0x20e;
pub const IA32_MTRR_PHYSMASK7: u32 = 0x20f;
pub const IA32_MTRR_PHYSBASE8: u32 = 0x210;
pub const IA32_MTRR_PHYSMASK8: u32 = 0x211;
pub const IA32_MTRR_PHYSBASE9: u32 = 0x212;
pub const IA32_MTRR_PHYSMASK9: u32 = 0x213;
pub const IA32_MTRR_FIX64K_00000: u32 = 0x250;
pub const IA32_MTRR_FIX16K_80000: u32 = 0x258;
pub const IA32_MTRR_FIX16K_A0000: u32 = 0x259;
pub const IA32_MTRR_FIX4K_C0000: u32 = 0x268;
pub const IA32_MTRR_FIX4K_C8000: u32 = 0x269;
pub const IA32_MTRR_FIX4K_D0000: u32 = 0x26a;
pub const IA32_MTRR_FIX4K_D8000: u32 = 0x26b;
pub const IA32_MTRR_FIX4K_E0000: u32 = 0x26c;
pub const IA32_MTRR_FIX4K_E8000: u32 = 0x26d;
pub const IA32_MTRR_FIX4K_F0000: u32 = 0x26e;
pub const IA32_MTRR_FIX4K_F8000: u32 = 0x26f;
pub const IA32_PAT: u32 = 0x277;
pub const IA32_MTRR_DEF_TYPE: u32 = 0x2ff;
pub const IA32_MC0_CTL: u32 = 0x400;
pub const IA32_MC0_STATUS: u32 = 0x401;
pub const IA32_MC0_ADDR: u32 = 0x402;
pub const IA32_MC0_MISC: u32 = 0x403;
pub const IA32_MC1_CTL: u32 = 0x404;
pub const IA32_MC1_STATUS: u32 = 0x405;
pub const IA32_MC1_ADDR: u32 = 0x406;
pub const IA32_MC1_MISC: u32 = 0x407;
pub const IA32_MC2_CTL: u32 = 0x408;
pub const IA32_MC2_STATUS: u32 = 0x409;
pub const IA32_MC2_ADDR: u32 = 0x40a;
pub const IA32_MC2_MISC: u32 = 0x40b;
pub const IA32_MC3_CTL: u32 = 0x40c;
pub const IA32_MC3_STATUS: u32 = 0x40d;
pub const IA32_MC3_ADDR1: u32 = 0x40e;
pub const IA32_MC3_MISC: u32 = 0x40f;
pub const IA32_MC4_CTL: u32 = 0x410;
pub const IA32_MC4_STATUS: u32 = 0x411;
pub const IA32_MC4_ADDR: u32 = 0x412;
pub const IA32_MC4_MISC: u32 = 0x413;
pub const IA32_MC5_CTL: u32 = 0x414;
pub const IA32_MC5_STATUS: u32 = 0x415;
pub const IA32_MC5_ADDR: u32 = 0x416;
pub const IA32_MC5_MISC: u32 = 0x417;
pub const IA32_MC6_CTL: u32 = 0x418;
pub const IA32_MC6_STATUS: u32 = 0x419;
pub const IA32_MC6_ADDR1: u32 = 0x41a;
pub const IA32_MC6_MISC: u32 = 0x41b;
pub const IA32_MC7_CTL: u32 = 0x41c;
pub const IA32_MC7_STATUS: u32 = 0x41d;
pub const IA32_MC7_ADDR: u32 = 0x41e;
pub const IA32_MC7_MISC: u32 = 0x41f;
pub const IA32_MC8_CTL: u32 = 0x420;
pub const IA32_MC8_STATUS: u32 = 0x421;
pub const IA32_MC8_ADDR: u32 = 0x422;
pub const IA32_MC8_MISC: u32 = 0x423;
pub const IA32_MC9_CTL: u32 = 0x424;
pub const IA32_MC9_STATUS: u32 = 0x425;
pub const IA32_MC9_ADDR: u32 = 0x426;
pub const IA32_MC9_MISC: u32 = 0x427;
pub const IA32_MC10_CTL: u32 = 0x428;
pub const IA32_MC10_STATUS: u32 = 0x429;
pub const IA32_MC10_ADDR: u32 = 0x42a;
pub const IA32_MC10_MISC: u32 = 0x42b;
pub const IA32_MC11_CTL: u32 = 0x42c;
pub const IA32_MC11_STATUS: u32 = 0x42d;
pub const IA32_MC11_ADDR: u32 = 0x42e;
pub const IA32_MC11_MISC: u32 = 0x42f;
pub const IA32_MC12_CTL: u32 = 0x430;
pub const IA32_MC12_STATUS: u32 = 0x431;
pub const IA32_MC12_ADDR: u32 = 0x432;
pub const IA32_MC12_MISC: u32 = 0x433;
pub const IA32_MC13_CTL: u32 = 0x434;
pub const IA32_MC13_STATUS: u32 = 0x435;
pub const IA32_MC13_ADDR: u32 = 0x436;
pub const IA32_MC13_MISC: u32 = 0x437;
pub const IA32_MC14_CTL: u32 = 0x438;
pub const IA32_MC14_STATUS: u32 = 0x439;
pub const IA32_MC14_ADDR: u32 = 0x43a;
pub const IA32_MC14_MISC: u32 = 0x43b;
pub const IA32_MC15_CTL: u32 = 0x43c;
pub const IA32_MC15_STATUS: u32 = 0x43d;
pub const IA32_MC15_ADDR: u32 = 0x43e;
pub const IA32_MC15_MISC: u32 = 0x43f;
pub const IA32_MC16_CTL: u32 = 0x440;
pub const IA32_MC16_STATUS: u32 = 0x441;
pub const IA32_MC16_ADDR: u32 = 0x442;
pub const IA32_MC16_MISC: u32 = 0x443;
pub const IA32_MC17_CTL: u32 = 0x444;
pub const IA32_MC17_STATUS: u32 = 0x445;
pub const IA32_MC17_ADDR: u32 = 0x446;
pub const IA32_MC17_MISC: u32 = 0x447;
pub const IA32_MC18_CTL: u32 = 0x448;
pub const IA32_MC18_STATUS: u32 = 0x449;
pub const IA32_MC18_ADDR: u32 = 0x44a;
pub const IA32_MC18_MISC: u32 = 0x44b;
pub const IA32_MC19_CTL: u32 = 0x44c;
pub const IA32_MC19_STATUS: u32 = 0x44d;
pub const IA32_MC19_ADDR: u32 = 0x44e;
pub const IA32_MC19_MISC: u32 = 0x44f;
pub const IA32_MC20_CTL: u32 = 0x450;
pub const IA32_MC20_STATUS: u32 = 0x451;
pub const IA32_MC20_ADDR: u32 = 0x452;
pub const IA32_MC20_MISC: u32 = 0x453;
pub const IA32_MC21_CTL: u32 = 0x454;
pub const IA32_MC21_STATUS: u32 = 0x455;
pub const IA32_MC21_ADDR: u32 = 0x456;
pub const IA32_MC21_MISC: u32 = 0x457;
pub const IA32_MC22_CTL: u32 = 0x458;
pub const IA32_MC22_STATUS: u32 = 0x459;
pub const IA32_MC22_ADDR: u32 = 0x45a;
pub const IA32_MC22_MISC: u32 = 0x45b;
pub const IA32_MC23_CTL: u32 = 0x45c;
pub const IA32_MC23_STATUS: u32 = 0x45d;
pub const IA32_MC23_ADDR: u32 = 0x45e;
pub const IA32_MC23_MISC: u32 = 0x45f;
pub const IA32_MC24_CTL: u32 = 0x460;
pub const IA32_MC24_STATUS: u32 = 0x461;
pub const IA32_MC24_ADDR: u32 = 0x462;
pub const IA32_MC24_MISC: u32 = 0x463;
pub const IA32_MC25_CTL: u32 = 0x464;
pub const IA32_MC25_STATUS: u32 = 0x465;
pub const IA32_MC25_ADDR: u32 = 0x466;
pub const IA32_MC25_MISC: u32 = 0x467;
pub const IA32_MC26_CTL: u32 = 0x468;
pub const IA32_MC26_STATUS: u32 = 0x469;
pub const IA32_MC26_ADDR: u32 = 0x46a;
pub const IA32_MC26_MISC: u32 = 0x46b;
pub const IA32_MC27_CTL: u32 = 0x46c;
pub const IA32_MC27_STATUS: u32 = 0x46d;
pub const IA32_MC27_ADDR: u32 = 0x46e;
pub const IA32_MC27_MISC: u32 = 0x46f;
pub const IA32_MC28_CTL: u32 = 0x470;
pub const IA32_MC28_STATUS: u32 = 0x471;
pub const IA32_MC28_ADDR: u32 = 0x472;
pub const IA32_MC28_MISC: u32 = 0x473;
pub const IA32_MC29_CTL: u32 = 0x474;
pub const IA32_MC29_STATUS: u32 = 0x475;
pub const IA32_MC29_ADDR: u32 = 0x476;
pub const IA32_MC29_MISC: u32 = 0x477;
pub const IA32_MC30_CTL: u32 = 0x478;
pub const IA32_MC30_STATUS: u32 = 0x479;
pub const IA32_MC30_ADDR: u32 = 0x47a;
pub const IA32_MC30_MISC: u32 = 0x47b;
pub const IA32_MC31_CTL: u32 = 0x47c;
pub const IA32_MC31_STATUS: u32 = 0x47d;
pub const IA32_MC31_ADDR: u32 = 0x47e;
pub const IA32_MC31_MISC: u32 = 0x47f;
pub const IA32_TSC_DEADLINE: u32 = 0x6e0;
pub const IA32_X2APIC_TPR: u32 = 0x808;
pub const IA32_X2APIC_SIVR: u32 = 0x80f;
pub const IA32_X2APIC_ESR: u32 = 0x828;
pub const IA32_X2APIC_LVT_CMCI: u32 = 0x82f;
pub const IA32_X2APIC_ICR: u32 = 0x830;
pub const IA32_X2APIC_LVT_TIMER: u32 = 0x832;
pub const IA32_X2APIC_LVT_THERMAL: u32 = 0x833;
pub const IA32_X2APIC_LVT_PMI: u32 = 0x834;
pub const IA32_X2APIC_LVT_LINT0: u32 = 0x835;
pub const IA32_X2APIC_LVT_LINT1: u32 = 0x836;
pub const IA32_X2APIC_LVT_ERROR: u32 = 0x837;
pub const IA32_X2APIC_INIT_COUNT: u32 = 0x838;
pub const IA32_X2APIC_DIV_CONF: u32 = 0x83e;
/// Extended Feature Enable
pub const IA32_EFER: u32 = 0xc0000080;
pub const IA32_STAR: u32 = 0xc000_0081;
pub const IA32_LSTAR: u32 = 0xc000_0082;
pub const IA32_CSTAR: u32 = 0xc000_0083;
pub const IA32_FMASK: u32 = 0xc000_0084;
pub const IA32_FS_BASE: u32 = 0xc000_0100;
pub const IA32_GS_BASE: u32 = 0xc000_0101;
pub const IA32_KERNEL_GS_BASE: u32 = 0xc000_0102;
pub const IA32_TSC_AUX: u32 = 0xc000_0103;

// Write-only architectural MSRs that are permitted for CPU profiles.
/// Prediction Command (WO)
pub const IA32_PRED_CMD: u32 = 0x49;
/// Flush Command (WO)
pub const IA32_FLUSH_CMD: u32 = 0x10b;
pub const IA32_X2APIC_EOI: u32 = 0x80b;
pub const IA32_X2APIC_SELF_IPI: u32 = 0x83f;

// Architectural MSRs that are forbidden for all CPU profiles other than the host one, given as
// inclusive ranges of register addresses.
pub const IA32_P5_MC_ADDR: (u32, u32) = (0x0, 0x0);
pub const IA32_P5_MC_TYPE: (u32, u32) = (0x1, 0x1);
pub const IA32_MONITOR_FILTER_SIZE: (u32, u32) = (0x6, 0x6);
pub const IA32_PLATFORM_ID: (u32, u32) = (0x17, 0x17);
/// Only available is CPUID 0x7.0x1.EBX[0] = 1, but this is always 0 for non-host CPU profiles
pub const IA32_PPIN_CTL: (u32, u32) = (0x4e, 0x4e);
/// Only available is CPUID 0x7.0x1.EBX[0] = 1, but this is always 0 for non-host CPU profiles
pub const IA32_PPIN: (u32, u32) = (0x4f, 0x4f);
/// Used for microcode updates. Should not be available for guests.
pub const IA32_BIOS_UPDT_TRIG: (u32, u32) = (0x79, 0x79);
/// Currently only related to Secure enclaves/Keylocker which is not available for non-host CPU profiles
pub const IA32_FEATURE_ACTIVATION: (u32, u32) = (0x7a, 0x7a);
pub const IA32_FZM_RANGE_INDEX: (u32, u32) = (0x82, 0x82);
pub const IA32_SMRR_PHYS_BASE_MASK: (u32, u32) = (0x1f2, 0x1f3);
pub const IA32_PECI_HWP_REQUEST_INFO: (u32, u32) = (0x775, 0x775);
/// Related to microcode updates
pub const IA32_MCU_ENUMERATION: (u32, u32) = (0x7b, 0x7b);
pub const IA32_MCU_STATUS: (u32, u32) = (0x7c, 0x7c);
/// Related to total memory encryption
///
pub const IA32_MKTME_KEYID_PARTITIONING: (u32, u32) = (0x87, 0x87);
pub const IA32_SGXLEPUBKEYHASH0: (u32, u32) = (0x8c, 0x8c);
pub const IA32_SGXLEPUBKEYHASH1: (u32, u32) = (0x8d, 0x8d);
pub const IA32_SGXLEPUBKEYHASH2: (u32, u32) = (0x8e, 0x8e);
pub const IA32_SGXLEPUBKEYHASH3: (u32, u32) = (0x8f, 0x8f);
pub const IA32_SGXLEPUBKEYHASH4: (u32, u32) = (0x90, 0x90);
pub const IA32_SGXLEPUBKEYHASH5: (u32, u32) = (0x91, 0x91);
pub const IA32_SMBASE: (u32, u32) = (0x9e, 0x9e);
pub const IA32_MISC_PACKAGE_CTLS: (u32, u32) = (0xbc, 0xbc);
/// xAPIC Disable Status
pub const IA32_XAPIC_DISABLE_STATUS: (u32, u32) = (0xbd, 0xbd);
/// Overclocking Status (R/O)
pub const IA32_OVERCLOCKING_STATUS: (u32, u32) = (0x195, 0x195);
pub const IA32_PMC0: (u32, u32) = (0xc1, 0xc1);
pub const IA32_PMC1: (u32, u32) = (0xc2, 0xc2);
pub const IA32_PMC2: (u32, u32) = (0xc3, 0xc3);
pub const IA32_PMC3: (u32, u32) = (0xc4, 0xc4);
pub const IA32_PMC4: (u32, u32) = (0xc5, 0xc5);
pub const IA32_PMC5: (u32, u32) = (0xc6, 0xc6);
pub const IA32_PMC6: (u32, u32) = (0xc7, 0xc7);
pub const IA32_PMC7: (u32, u32) = (0xc8, 0xc8);
pub const IA32_PMC8: (u32, u32) = (0xc9, 0xc9);
pub const IA32_PMC9: (u32, u32) = (0xca, 0xca);
pub const IA32_CORE_CAPABILITIES: (u32, u32) = (0xcf, 0xcf);
pub const IA32_UMWAIT_CONTROL: (u32, u32) = (0xe1, 0xe1);
/// Clock Modulation Control
/// This is disabled via CPUID for non-host CPU profiles
pub const IA32_CLOCK_MODULATION: (u32, u32) = (0x19a, 0x19a);
pub const IA32_PLI_SSP: (u32, u32) = (0x6a4, 0x6a7);
pub const IA32_INTERRUPT_SSP_TABLE_ADDR: (u32, u32) = (0x6a8, 0x6a8);
pub const IA32_MPERF: (u32, u32) = (0xe7, 0xe7);
pub const IA32_APERF: (u32, u32) = (0xe8, 0xe8);
pub const IA32_TSX_FORCE_ABORT: (u32, u32) = (0x10f, 0x10f);
pub const IA32_TSX_CTRL: (u32, u32) = (0x122, 0x122);
pub const IA32_MCG_CTL: (u32, u32) = (0x17b, 0x17b);
/// Disabled via CPUID for all non-host CPU profiles
pub const IA32_PERFEVTSEL0: (u32, u32) = (0x186, 0x186);
pub const IA32_PERFEVTSEL1: (u32, u32) = (0x187, 0x187);
pub const IA32_PERFEVTSEL2: (u32, u32) = (0x188, 0x188);
pub const IA32_PERFEVTSEL3: (u32, u32) = (0x189, 0x189);
pub const IA32_PERFEVTSEL4: (u32, u32) = (0x18a, 0x18a);
pub const IA32_PERFEVTSEL5: (u32, u32) = (0x18b, 0x18b);
pub const IA32_PERFEVTSEL6: (u32, u32) = (0x18c, 0x18c);
pub const IA32_PERFEVTSEL7: (u32, u32) = (0x18d, 0x18d);
pub const IA32_PERFEVTSEL8: (u32, u32) = (0x18e, 0x18e);
pub const IA32_PERFEVTSEL9: (u32, u32) = (0x18f, 0x18f);
pub const IA32_PERF_STATUS: (u32, u32) = (0x198, 0x198);
pub const IA32_PERF_CTL: (u32, u32) = (0x199, 0x199);
pub const IA32_THERM_INTERRUPT: (u32, u32) = (0x19b, 0x19b);
pub const IA32_THERM_STATUS: (u32, u32) = (0x19c, 0x19c);
pub const IA32_ENERGY_PERF_BIAS: (u32, u32) = (0x1b0, 0x1b0);
pub const IA32_PACKAGE_THERM_STATUS: (u32, u32) = (0x1b1, 0x1b1);
pub const IA32_PACKAGE_THERM_INTERRUPT: (u32, u32) = (0x1b2, 0x1b2);
pub const IA32_DEBUGCTL: (u32, u32) = (0x1d9, 0x1d9);
pub const IA32_LER_FROM_IP: (u32, u32) = (0x1dd, 0x1dd);
pub const IA32_LER_TO_IP: (u32, u32) = (0x1de, 0x1de);
pub const IA32_LER_INFO: (u32, u32) = (0x1e0, 0x1e0);
pub const IA32_MC_I_CTL2: (u32, u32) = (0x280, 0x29f);
pub const IA32_INTEGRITY_STATUS: (u32, u32) = (0x2dc, 0x2dc);
pub const IA32_FIXED_CTRI: (u32, u32) = (0x309, 0x30f);
pub const IA32_FIXED_CTR_CTRL: (u32, u32) = (0x38d, 0x38d);
pub const IA32_PERF_GLOBAL_STATUS: (u32, u32) = (0x38e, 0x38e);
pub const IA32_PERF_GLOBAL_CTRL: (u32, u32) = (0x38f, 0x38f);
pub const IA32_PERF_GLOBAL_STATUS_RESET: (u32, u32) = (0x390, 0x390);
pub const IA32_PERF_GLOBAL_STATUS_SET: (u32, u32) = (0x391, 0x391);
pub const IA32_PERF_GLOBAL_INUSE: (u32, u32) = (0x392, 0x392);
pub const IA32_PEBS_ENABLE: (u32, u32) = (0x3f1, 0x3f1);
pub const IA32_A_PMC0: (u32, u32) = (0x4c1, 0x4c1);
pub const IA32_A_PMC1: (u32, u32) = (0x4c2, 0x4c2);
pub const IA32_A_PMC2: (u32, u32) = (0x4c3, 0x4c3);
pub const IA32_A_PMC3: (u32, u32) = (0x4c4, 0x4c4);
pub const IA32_A_PMC4: (u32, u32) = (0x4c5, 0x4c5);
pub const IA32_A_PMC5: (u32, u32) = (0x4c6, 0x4c6);
pub const IA32_A_PMC6: (u32, u32) = (0x4c7, 0x4c7);
pub const IA32_A_PMC7: (u32, u32) = (0x4c8, 0x4c8);
pub const IA32_A_PMC8: (u32, u32) = (0x4c9, 0x4c9);
pub const IA32_A_PMC9: (u32, u32) = (0x4ca, 0x4ca);
pub const IA32_MCG_EXT_CTL: (u32, u32) = (0x4d0, 0x4d0);
pub const IA32_SGX_SVN_STATUS: (u32, u32) = (0x500, 0x500);
pub const IA32_RTIT_OUTPUT_BASE: (u32, u32) = (0x560, 0x560);
pub const IA32_RTIT_OUTPUT_MASK_PTRS: (u32, u32) = (0x561, 0x561);
pub const IA32_RTIT_CTL: (u32, u32) = (0x570, 0x570);
pub const IA32_RTIT_STATUS: (u32, u32) = (0x571, 0x571);
pub const IA32_RTIT_CR3_MATCH: (u32, u32) = (0x572, 0x572);
pub const IA32_RTIT_ADDR0_A: (u32, u32) = (0x580, 0x580);
pub const IA32_RTIT_ADDR0_B: (u32, u32) = (0x581, 0x581);
pub const IA32_RTIT_ADDR1_A: (u32, u32) = (0x582, 0x582);
pub const IA32_RTIT_ADDR1_B: (u32, u32) = (0x583, 0x583);
pub const IA32_RTIT_ADDR2_A: (u32, u32) = (0x584, 0x584);
pub const IA32_RTIT_ADDR2_B: (u32, u32) = (0x585, 0x585);
pub const IA32_RTIT_ADDR3_A: (u32, u32) = (0x586, 0x586);
pub const IA32_RTIT_ADDR3_B: (u32, u32) = (0x587, 0x587);
pub const IA32_DS_AREA: (u32, u32) = (0x600, 0x600);
pub const IA32_U_CET: (u32, u32) = (0x6a0, 0x6a0);
pub const IA32_S_CET: (u32, u32) = (0x6a2, 0x6a2);
pub const IA32_PKRS: (u32, u32) = (0x6e1, 0x6e1);
pub const IA32_PM_ENABLE: (u32, u32) = (0x770, 0x770);
pub const IA32_HWP_CAPABILITIES: (u32, u32) = (0x771, 0x771);
pub const IA32_HWP_REQUEST_PKG: (u32, u32) = (0x772, 0x772);
pub const IA32_HWP_INTERRUPT: (u32, u32) = (0x773, 0x773);
pub const IA32_HWP_REQUEST: (u32, u32) = (0x774, 0x774);
pub const IA32_HWP_CTL: (u32, u32) = (0x776, 0x776);
pub const IA32_HWP_STATUS: (u32, u32) = (0x777, 0x777);
pub const IA32_MCU_EXT_SERVICE: (u32, u32) = (0x7a3, 0x7a3);
pub const IA32_MCU_ROLLBACK_MIN_ID: (u32, u32) = (0x7a4, 0x7a4);
pub const IA32_ROLLBACK_SIGN_ID_0: (u32, u32) = (0x7b0, 0x7b0);
pub const IA32_ROLLBACK_SIGN_ID_1: (u32, u32) = (0x7b1, 0x7b1);
pub const IA32_ROLLBACK_SIGN_ID_2: (u32, u32) = (0x7b2, 0x7b2);
pub const IA32_ROLLBACK_SIGN_ID_3: (u32, u32) = (0x7b3, 0x7b3);
pub const IA32_ROLLBACK_SIGN_ID_4: (u32, u32) = (0x7b4, 0x7b4);
pub const IA32_ROLLBACK_SIGN_ID_5: (u32, u32) = (0x7b5, 0x7b5);
pub const IA32_ROLLBACK_SIGN_ID_6: (u32, u32) = (0x7b6, 0x7b6);
pub const IA32_ROLLBACK_SIGN_ID_7: (u32, u32) = (0x7b7, 0x7b7);
pub const IA32_ROLLBACK_SIGN_ID_8: (u32, u32) = (0x7b8, 0x7b8);
pub const IA32_ROLLBACK_SIGN_ID_9: (u32, u32) = (0x7b9, 0x7b9);
pub const IA32_ROLLBACK_SIGN_ID_10: (u32, u32) = (0x7ba, 0x7ba);
pub const IA32_ROLLBACK_SIGN_ID_11: (u32, u32) = (0x7bb, 0x7bb);
pub const IA32_ROLLBACK_SIGN_ID_12: (u32, u32) = (0x7bc, 0x7bc);
pub const IA32_ROLLBACK_SIGN_ID_13: (u32, u32) = (0x7bd, 0x7bd);
pub const IA32_ROLLBACK_SIGN_ID_14: (u32, u32) = (0x7be, 0x7be);
pub const IA32_ROLLBACK_SIGN_ID_15: (u32, u32) = (0x7bf, 0x7bf);
pub const IA32_TME_CAPABILITY: (u32, u32) = (0x981, 0x981);
pub const IA32_TME_ACTIVATE: (u32, u32) = (0x982, 0x982);
pub const IA32_TME_EXCLUDE_MASK: (u32, u32) = (0x983, 0x983);
pub const IA32_TME_EXCLUDE_BASE: (u32, u32) = (0x984, 0x984);
pub const IA32_UINTR_RR: (u32, u32) = (0x985, 0x985);
pub const IA32_UINTR_HANDLER: (u32, u32) = (0x986, 0x986);
pub const IA32_UINTR_STACKADJUST: (u32, u32) = (0x987, 0x987);
pub const IA32_UINTR_MISC: (u32, u32) = (0x988, 0x988);
pub const IA32_UINTR_PD: (u32, u32) = (0x989, 0x989);
pub const IA32_UINTR_TT: (u32, u32) = (0x98a, 0x98a);
pub const IA32_COPY_STATUS: (u32, u32) = (0x990, 0x990);
pub const IA32_IWKEYBACKUP_STATUS: (u32, u32) = (0x991, 0x991);
pub const IA32_TME_CLEAR_SAVED_KEY: (u32, u32) = (0x9fb, 0x9fb);
pub const IA32_DEBUG_INTERFACE: (u32, u32) = (0xc80, 0xc80);
pub const IA32_L3_QOS_CFG: (u32, u32) = (0xc81, 0xc81);
pub const IA32_L2_QOS_CFG: (u32, u32) = (0xc82, 0xc82);
pub const IA32_L3_IO_QOS_CFG: (u32, u32) = (0xc83, 0xc83);
pub const IA32_RESOURCE_PRIORITY: (u32, u32) = (0xc88, 0xc88);
pub const IA32_RESOURCE_PRIORITY_PKG: (u32, u32) = (0xc89, 0xc89);
pub const IA32_QM_EVTSEL: (u32, u32) = (0xc8d, 0xc8d);
pub const IA32_QM_CTR: (u32, u32) = (0xc8e, 0xc8e);
pub const IA32_PQR_ASSOC: (u32, u32) = (0xc8f, 0xc8f);
pub const IA32_L3_MASK_0: (u32, u32) = (0xc90, 0xc90);
pub const IA32_L3_MASK_N: (u32, u32) = (0xc91, 0xd8f);
pub const IA32_L2_MASK_0: (u32, u32) = (0xd10, 0xd10);
pub const IA32_L2_MASK_N: (u32, u32) = (0xd11, 0xd4f);
pub const IA32_L2_QOS_EXT_BW_THRTL_I: (u32, u32) = (0xd50, 0xd5e);
pub const IA32_BNDCFGS: (u32, u32) = (0xd90, 0xd90);
pub const IA32_COPY_LOCAL_TO_PLATFORM: (u32, u32) = (0xd91, 0xd91);
pub const IA32_COPY_PLATFORM_TO_LOCAL: (u32, u32) = (0xd92, 0xd92);
pub const IA32_PASID: (u32, u32) = (0xd93, 0xd93);
pub const IA32_XSS: (u32, u32) = (0xda0, 0xda0);
pub const IA32_PKG_HDC_CTL: (u32, u32) = (0xdb0, 0xdb0);
pub const IA32_PM_CTL1: (u32, u32) = (0xdb1, 0xdb1);
pub const IA32_THREAD_STALL: (u32, u32) = (0xdb2, 0xdb2);
pub const IA32_QOS_CORE_BW_THRTL_0: (u32, u32) = (0xe00, 0xe00);
pub const IA32_QOS_CORE_BW_THRTL_1: (u32, u32) = (0xe01, 0xe01);
pub const IA32_LBR_X_INFO: (u32, u32) = (0x1200, 0x121f);
pub const IA32_SEAMRR_BASE: (u32, u32) = (0x1400, 0x1400);
pub const IA32_SEAMRR_MASK: (u32, u32) = (0x1401, 0x1401);
pub const IA32_MCU_CONTROL: (u32, u32) = (0x1406, 1406);
pub const IA32_LBR_CTL: (u32, u32) = (0x14ce, 0x14ce);
pub const IA32_LBR_DEPTH: (u32, u32) = (0x14cf, 0x14cf);
pub const IA32_LBR_X_FROM_IP: (u32, u32) = (0x1500, 0x151f);
pub const IA32_LBR_X_TO_IP: (u32, u32) = (0x1600, 0x161f);
pub const IA32_HW_FEEDBACK_PTR: (u32, u32) = (0x17d0, 0x17d0);
pub const IA32_HW_FEEDBACK_CONFIG: (u32, u32) = (0x17d1, 0x17d1);
pub const IA32_HW_FEEDBACK_THREAD_CHAR: (u32, u32) = (0x17d2, 0x17d2);
pub const IA32_HW_FEEDBACK_THREAD_CONFIG: (u32, u32) = (0x17d4, 0x17d4);
pub const IA32_HRESET_ENABLE: (u32, u32) = (0x17da, 0x17da);
pub const IA32_PMC_GP0_CTR: (u32, u32) = (0x1900, 0x1900);
pub const IA32_PMC_GP0_CFG_A: (u32, u32) = (0x1901, 0x1901);
pub const IA32_PMC_GP0_CFG_C: (u32, u32) = (0x1903, 0x1903);
pub const IA32_PMC_GP1_CTR: (u32, u32) = (0x1904, 0x1904);
pub const IA32_PMC_GP1_CFG_A: (u32, u32) = (0x1905, 0x1905);
pub const IA32_PMC_GP1_CFG_C: (u32, u32) = (0x1907, 0x1907);
pub const IA32_PMC_GP2_CTR: (u32, u32) = (0x1908, 0x1908);
pub const IA32_PMC_GP2_CFG_A: (u32, u32) = (0x1909, 0x1909);
pub const IA32_PMC_GP2_CFG_B: (u32, u32) = (0x190a, 0x190a);
pub const IA32_PMC_GP2_CFG_C: (u32, u32) = (0x190b, 0x190b);
pub const IA32_PMC_GP3_CTR: (u32, u32) = (0x190c, 0x190c);
pub const IA32_PMC_GP3_CFG_A: (u32, u32) = (0x190d, 0x190d);
pub const IA32_PMC_GP3_CFG_B: (u32, u32) = (0x190e, 0x190e);
pub const IA32_PMC_GP3_CFG_C: (u32, u32) = (0x190f, 0x190f);
pub const IA32_PMC_GP4_CTR: (u32, u32) = (0x1910, 0x1910);
pub const IA32_PMC_GP4_CFG_A: (u32, u32) = (0x1911, 0x1911);
pub const IA32_PMC_GP4_CFG_B: (u32, u32) = (0x1912, 0x1912);
pub const IA32_PMC_GP4_CFG_C: (u32, u32) = (0x1913, 0x1913);
pub const IA32_PMC_GP5_CTR: (u32, u32) = (0x1914, 0x1914);
pub const IA32_PMC_GP5_CFG_A: (u32, u32) = (0x1915, 0x1915);
pub const IA32_PMC_GP5_CFG_B: (u32, u32) = (0x1916, 0x1916);
pub const IA32_PMC_GP5_CFG_C: (u32, u32) = (0x1917, 0x1917);
pub const IA32_PMC_GP6_CTR: (u32, u32) = (0x1918, 0x1918);
pub const IA32_PMC_GP6_CFG_A: (u32, u32) = (0x1919, 0x1919);
pub const IA32_PMC_GP6_CFG_B: (u32, u32) = (0x191a, 0x191a);
pub const IA32_PMC_GP6_CFG_C: (u32, u32) = (0x191b, 0x191b);
pub const IA32_PMC_GP7_CTR: (u32, u32) = (0x191c, 0x191c);
pub const IA32_PMC_GP7_CFG_A: (u32, u32) = (0x191d, 0x191d);
pub const IA32_PMC_GP7_CFG_B: (u32, u32) = (0x191e, 0x191e);
pub const IA32_PMC_GP7_CFG_C: (u32, u32) = (0x191f, 0x191f);
pub const IA32_PMC_GP8_CTR: (u32, u32) = (0x1920, 0x1920);
pub const IA32_PMC_GP8_CFG_A: (u32, u32) = (0x1921, 0x1921);
pub const IA32_PMC_GP9_CTR: (u32, u32) = (0x1924, 0x1924);
pub const IA32_PMC_GP9_CFG_A: (u32, u32) = (0x1925, 0x1925);
pub const IA32_PMC_FX0_CTR: (u32, u32) = (0x1980, 0x1980);
pub const IA32_PMC_FX0_CFG_B: (u32, u32) = (0x1982, 0x1982);
pub const IA32_PMC_FX0_CFG_C: (u32, u32) = (0x1983, 0x1983);
pub const IA32_PMC_FX1_CTR: (u32, u32) = (0x1984, 0x1984);
pub const IA32_PMC_FX1_CFG_B: (u32, u32) = (0x1986, 0x1986);
pub const IA32_PMC_FX1_CFG_C: (u32, u32) = (0x1987, 0x1987);
pub const IA32_PMC_FX2_CTR: (u32, u32) = (0x1988, 0x1988);
pub const IA32_PMC_FX2_CFG_C: (u32, u32) = (0x198b, 0x198b);
pub const IA32_PMC_FX3_CTR: (u32, u32) = (0x198c, 0x198c);
pub const IA32_PMC_FX4_CTR: (u32, u32) = (0x1990, 0x1990);
pub const IA32_PMC_FX4_CFG_C: (u32, u32) = (0x1993, 0x1993);
pub const IA32_PMC_FX5_CTR: (u32, u32) = (0x1994, 0x1994);
pub const IA32_PMC_FX5_CFG_C: (u32, u32) = (0x1997, 0x1997);
pub const IA32_PMC_FX6_CTR: (u32, u32) = (0x1998, 0x1998);
pub const IA32_PMC_FX6_CFG_C: (u32, u32) = (0x199b, 0x199b);
pub const IA32_UARCH_MISC_CTL: (u32, u32) = (0x1b01, 0x1b01);

/// The read only architectural MSRs that are permitted for CPU profiles, in order.
pub open spec fn read_only_ia32_msr_list() -> Seq<u32> {
    seq![
        IA32_BARRIER,
        IA32_MTRRCAP,
        IA32_FZM_DOMAIN_CONFIG,
        IA32_FZM_RANGE_STARTADDR,
        IA32_FZM_RANGE_ENDADDR,
        IA32_FZM_RANGE_WRITESTATUS,
        IA32_MCG_CAP,
        IA32_PLATFORM_DCA_CAP,
        IA32_CPU_DCA_CAP,
        IA32_MCU_STAGING_MBOX_ADDR,
        IA32_X2APIC_APICID,
        IA32_X2APIC_VERSION,
        IA32_X2APIC_PPR,
        IA32_X2APIC_LDR,
        IA32_X2APIC_ISR0,
        IA32_X2APIC_ISR1,
        IA32_X2APIC_ISR2,
        IA32_X2APIC_ISR3,
        IA32_X2APIC_ISR4,
        IA32_X2APIC_ISR5,
        IA32_X2APIC_ISR6,
        IA32_X2APIC_ISR7,
        IA32_X2APIC_TMR0,
        IA32_X2APIC_TMR1,
        IA32_X2APIC_TMR2,
        IA32_X2APIC_TMR3,
        IA32_X2APIC_TMR4,
        IA32_X2APIC_TMR5,
        IA32_X2APIC_TMR6,
        IA32_X2APIC_TMR7,
        IA32_X2APIC_IRR0,
        IA32_X2APIC_IRR1,
        IA32_X2APIC_IRR2,
        IA32_X2APIC_IRR3,
        IA32_X2APIC_IRR4,
        IA32_X2APIC_IRR5,
        IA32_X2APIC_IRR6,
        IA32_X2APIC_IRR7,
        IA32_X2APIC_CUR_COUNT,
    ]
}

/// Read-only architectural MSRs that are permitted for CPU profiles.
pub fn read_only_ia32_msrs() -> (r: Vec<u32>)
    ensures
        r@ == read_only_ia32_msr_list(),
{
    let r = vec![
        IA32_BARRIER,
        IA32_MTRRCAP,
        IA32_FZM_DOMAIN_CONFIG,
        IA32_FZM_RANGE_STARTADDR,
        IA32_FZM_RANGE_ENDADDR,
        IA32_FZM_RANGE_WRITESTATUS,
        IA32_MCG_CAP,
        IA32_PLATFORM_DCA_CAP,
        IA32_CPU_DCA_CAP,
        IA32_MCU_STAGING_MBOX_ADDR,
        IA32_X2APIC_APICID,
        IA32_X2APIC_VERSION,
        IA32_X2APIC_PPR,
        IA32_X2APIC_LDR,
        IA32_X2APIC_ISR0,
        IA32_X2APIC_ISR1,
        IA32_X2APIC_ISR2,
        IA32_X2APIC_ISR3,
        IA32_X2APIC_ISR4,
        IA32_X2APIC_ISR5,
        IA32_X2APIC_ISR6,
        IA32_X2APIC_ISR7,
        IA32_X2APIC_TMR0,
        IA32_X2APIC_TMR1,
        IA32_X2APIC_TMR2,
        IA32_X2APIC_TMR3,
        IA32_X2APIC_TMR4,
        IA32_X2APIC_TMR5,
        IA32_X2APIC_TMR6,
        IA32_X2APIC_TMR7,
        IA32_X2APIC_IRR0,
        IA32_X2APIC_IRR1,
        IA32_X2APIC_IRR2,
        IA32_X2APIC_IRR3,
        IA32_X2APIC_IRR4,
        IA32_X2APIC_IRR5,
        IA32_X2APIC_IRR6,
        IA32_X2APIC_IRR7,
        IA32_X2APIC_CUR_COUNT,
    ];
    assert(r@ =~= read_only_ia32_msr_list());
    r
}

/// The read write architectural MSRs that are permitted for CPU profiles, in order.
pub open spec fn read_write_ia32_msr_list() -> Seq<u32> {
    seq![
        IA32_TIME_STAMP_COUNTER,
        IA32_APIC_BASE,
        IA32_FEATURE_CONTROL,
        IA32_TSC_ADJUST,
        IA32_SPEC_CTRL,
        IA32_MCU_OPT_CTRL,
        IA32_SYSENTER_CS,
        IA32_SYSENTER_ESP,
        IA32_SYSENTER_EIP,
        IA32_MCG_STATUS,
        IA32_SMM_MONITOR_CTL,
        IA32_MISC_ENABLE,
        IA32_XFD,
        IA32_XFD_ERR,
        IA32_DCA_0_CAP,
        IA32_MTRR_PHYSBASE0,
        IA32_MTRR_PHYSMASK0,
        IA32_MTRR_PHYSBASE1,
        IA32_MTRR_PHYSMASK1,
        IA32_MTRR_PHYSBASE2,
        IA32_MTRR_PHYSMASK2,
        IA32_MTRR_PHYSBASE3,
        IA32_MTRR_PHYSMASK3,
        IA32_MTRR_PHYSBASE4,
        IA32_MTRR_PHYSMASK4,
        IA32_MTRR_PHYSBASE5,
        IA32_MTRR_PHYSMASK5,
        IA32_MTRR_PHYSBASE6,
        IA32_MTRR_PHYSMASK6,
        IA32_MTRR_PHYSBASE7,
        IA32_MTRR_PHYSMASK7,
        IA32_MTRR_PHYSBASE8,
        IA32_MTRR_PHYSMASK8,
        IA32_MTRR_PHYSBASE9,
        IA32_MTRR_PHYSMASK9,
        IA32_MTRR_FIX64K_00000,
        IA32_MTRR_FIX16K_80000,
        IA32_MTRR_FIX16K_A0000,
        IA32_MTRR_FIX4K_C0000,
        IA32_MTRR_FIX4K_C8000,
        IA32_MTRR_FIX4K_D0000,
        IA32_MTRR_FIX4K_D8000,
        IA32_MTRR_FIX4K_E0000,
        IA32_MTRR_FIX4K_E8000,
        IA32_MTRR_FIX4K_F0000,
        IA32_MTRR_FIX4K_F8000,
        IA32_PAT,
        IA32_MTRR_DEF_TYPE,
        IA32_MC0_CTL,
        IA32_MC0_STATUS,
        IA32_MC0_ADDR,
        IA32_MC0_MISC,
        IA32_MC1_CTL,
        IA32_MC1_STATUS,
        IA32_MC1_ADDR,
        IA32_MC1_MISC,
        IA32_MC2_CTL,
        IA32_MC2_STATUS,
        IA32_MC2_ADDR,
        IA32_MC2_MISC,
        IA32_MC3_CTL,
        IA32_MC3_STATUS,
        IA32_MC3_ADDR1,
        IA32_MC3_MISC,
        IA32_MC4_CTL,
        IA32_MC4_STATUS,
        IA32_MC4_ADDR,
        IA32_MC4_MISC,
        IA32_MC5_CTL,
        IA32_MC5_STATUS,
        IA32_MC5_ADDR,
        IA32_MC5_MISC,
        IA32_MC6_CTL,
        IA32_MC6_STATUS,
        IA32_MC6_ADDR1,
        IA32_MC6_MISC,
        IA32_MC7_CTL,
        IA32_MC7_STATUS,
        IA32_MC7_ADDR,
        IA32_MC7_MISC,
        IA32_MC8_CTL,
        IA32_MC8_STATUS,
        IA32_MC8_ADDR,
        IA32_MC8_MISC,
        IA32_MC9_CTL,
        IA32_MC9_STATUS,
        IA32_MC9_ADDR,
        IA32_MC9_MISC,
        IA32_MC10_CTL,
        IA32_MC10_STATUS,
        IA32_MC10_ADDR,
        IA32_MC10_MISC,
        IA32_MC11_CTL,
        IA32_MC11_STATUS,
        IA32_MC11_ADDR,
        IA32_MC11_MISC,
        IA32_MC12_CTL,
        IA32_MC12_STATUS,
        IA32_MC12_ADDR,
        IA32_MC12_MISC,
        IA32_MC13_CTL,
        IA32_MC13_STATUS,
        IA32_MC13_ADDR,
        IA32_MC13_MISC,
        IA32_MC14_CTL,
        IA32_MC14_STATUS,
        IA32_MC14_ADDR,
        IA32_MC14_MISC,
        IA32_MC15_CTL,
        IA32_MC15_STATUS,
        IA32_MC15_ADDR,
        IA32_MC15_MISC,
        IA32_MC16_CTL,
        IA32_MC16_STATUS,
        IA32_MC16_ADDR,
        IA32_MC16_MISC,
        IA32_MC17_CTL,
        IA32_MC17_STATUS,
        IA32_MC17_ADDR,
        IA32_MC17_MISC,
        IA32_MC18_CTL,
        IA32_MC18_STATUS,
        IA32_MC18_ADDR,
        IA32_MC18_MISC,
        IA32_MC19_CTL,
        IA32_MC19_STATUS,
        IA32_MC19_ADDR,
        IA32_MC19_MISC,
        IA32_MC20_CTL,
        IA32_MC20_STATUS,
        IA32_MC20_ADDR,
        IA32_MC20_MISC,
        IA32_MC21_CTL,
        IA32_MC21_STATUS,
        IA32_MC21_ADDR,
        IA32_MC21_MISC,
        IA32_MC22_CTL,
        IA32_MC22_STATUS,
        IA32_MC22_ADDR,
        IA32_MC22_MISC,
        IA32_MC23_CTL,
        IA32_MC23_STATUS,
        IA32_MC23_ADDR,
        IA32_MC23_MISC,
        IA32_MC24_CTL,
        IA32_MC24_STATUS,
        IA32_MC24_ADDR,
        IA32_MC24_MISC,
        IA32_MC25_CTL,
        IA32_MC25_STATUS,
        IA32_MC25_ADDR,
        IA32_MC25_MISC,
        IA32_MC26_CTL,
        IA32_MC26_STATUS,
        IA32_MC26_ADDR,
        IA32_MC26_MISC,
        IA32_MC27_CTL,
        IA32_MC27_STATUS,
        IA32_MC27_ADDR,
        IA32_MC27_MISC,
        IA32_MC28_CTL,
        IA32_MC28_STATUS,
        IA32_MC28_ADDR,
        IA32_MC28_MISC,
        IA32_MC29_CTL,
        IA32_MC29_STATUS,
        IA32_MC29_ADDR,
        IA32_MC29_MISC,
        IA32_MC30_CTL,
        IA32_MC30_STATUS,
        IA32_MC30_ADDR,
        IA32_MC30_MISC,
        IA32_MC31_CTL,
        IA32_MC31_STATUS,
        IA32_MC31_ADDR,
        IA32_MC31_MISC,
        IA32_TSC_DEADLINE,
        IA32_X2APIC_TPR,
        IA32_X2APIC_SIVR,
        IA32_X2APIC_ESR,
        IA32_X2APIC_LVT_CMCI,
        IA32_X2APIC_ICR,
        IA32_X2APIC_LVT_TIMER,
        IA32_X2APIC_LVT_THERMAL,
        IA32_X2APIC_LVT_PMI,
        IA32_X2APIC_LVT_LINT0,
        IA32_X2APIC_LVT_LINT1,
        IA32_X2APIC_LVT_ERROR,
        IA32_X2APIC_INIT_COUNT,
        IA32_X2APIC_DIV_CONF,
        IA32_EFER,
        IA32_STAR,
        IA32_LSTAR,
        IA32_CSTAR,
        IA32_FMASK,
        IA32_FS_BASE,
        IA32_GS_BASE,
        IA32_KERNEL_GS_BASE,
        IA32_TSC_AUX,
    ]
}

/// Readable and writable architectural MSRs that are permitted for CPU profiles.
pub fn read_write_ia32_msrs() -> (r: Vec<u32>)
    ensures
        r@ == read_write_ia32_msr_list(),
{
    let r = vec![
        IA32_TIME_STAMP_COUNTER,
        IA32_APIC_BASE,
        IA32_FEATURE_CONTROL,
        IA32_TSC_ADJUST,
        IA32_SPEC_CTRL,
        IA32_MCU_OPT_CTRL,
        IA32_SYSENTER_CS,
        IA32_SYSENTER_ESP,
        IA32_SYSENTER_EIP,
        IA32_MCG_STATUS,
        IA32_SMM_MONITOR_CTL,
        IA32_MISC_ENABLE,
        IA32_XFD,
        IA32_XFD_ERR,
        IA32_DCA_0_CAP,
        IA32_MTRR_PHYSBASE0,
        IA32_MTRR_PHYSMASK0,
        IA32_MTRR_PHYSBASE1,
        IA32_MTRR_PHYSMASK1,
        IA32_MTRR_PHYSBASE2,
        IA32_MTRR_PHYSMASK2,
        IA32_MTRR_PHYSBASE3,
        IA32_MTRR_PHYSMASK3,
        IA32_MTRR_PHYSBASE4,
        IA32_MTRR_PHYSMASK4,
        IA32_MTRR_PHYSBASE5,
        IA32_MTRR_PHYSMASK5,
        IA32_MTRR_PHYSBASE6,
        IA32_MTRR_PHYSMASK6,
        IA32_MTRR_PHYSBASE7,
        IA32_MTRR_PHYSMASK7,
        IA32_MTRR_PHYSBASE8,
        IA32_MTRR_PHYSMASK8,
        IA32_MTRR_PHYSBASE9,
        IA32_MTRR_PHYSMASK9,
        IA32_MTRR_FIX64K_00000,
        IA32_MTRR_FIX16K_80000,
        IA32_MTRR_FIX16K_A0000,
        IA32_MTRR_FIX4K_C0000,
        IA32_MTRR_FIX4K_C8000,
        IA32_MTRR_FIX4K_D0000,
        IA32_MTRR_FIX4K_D8000,
        IA32_MTRR_FIX4K_E0000,
        IA32_MTRR_FIX4K_E8000,
        IA32_MTRR_FIX4K_F0000,
        IA32_MTRR_FIX4K_F8000,
        IA32_PAT,
        IA32_MTRR_DEF_TYPE,
        IA32_MC0_CTL,
        IA32_MC0_STATUS,
        IA32_MC0_ADDR,
        IA32_MC0_MISC,
        IA32_MC1_CTL,
        IA32_MC1_STATUS,
        IA32_MC1_ADDR,
        IA32_MC1_MISC,
        IA32_MC2_CTL,
        IA32_MC2_STATUS,
        IA32_MC2_ADDR,
        IA32_MC2_MISC,
        IA32_MC3_CTL,
        IA32_MC3_STATUS,
        IA32_MC3_ADDR1,
        IA32_MC3_MISC,
        IA32_MC4_CTL,
        IA32_MC4_STATUS,
        IA32_MC4_ADDR,
        IA32_MC4_MISC,
        IA32_MC5_CTL,
        IA32_MC5_STATUS,
        IA32_MC5_ADDR,
        IA32_MC5_MISC,
        IA32_MC6_CTL,
        IA32_MC6_STATUS,
        IA32_MC6_ADDR1,
        IA32_MC6_MISC,
        IA32_MC7_CTL,
        IA32_MC7_STATUS,
        IA32_MC7_ADDR,
        IA32_MC7_MISC,
        IA32_MC8_CTL,
        IA32_MC8_STATUS,
        IA32_MC8_ADDR,
        IA32_MC8_MISC,
        IA32_MC9_CTL,
        IA32_MC9_STATUS,
        IA32_MC9_ADDR,
        IA32_MC9_MISC,
        IA32_MC10_CTL,
        IA32_MC10_STATUS,
        IA32_MC10_ADDR,
        IA32_MC10_MISC,
        IA32_MC11_CTL,
        IA32_MC11_STATUS,
        IA32_MC11_ADDR,
        IA32_MC11_MISC,
        IA32_MC12_CTL,
        IA32_MC12_STATUS,
        IA32_MC12_ADDR,
        IA32_MC12_MISC,
        IA32_MC13_CTL,
        IA32_MC13_STATUS,
        IA32_MC13_ADDR,
        IA32_MC13_MISC,
        IA32_MC14_CTL,
        IA32_MC14_STATUS,
        IA32_MC14_ADDR,
        IA32_MC14_MISC,
        IA32_MC15_CTL,
        IA32_MC15_STATUS,
        IA32_MC15_ADDR,
        IA32_MC15_MISC,
        IA32_MC16_CTL,
        IA32_MC16_STATUS,
        IA32_MC16_ADDR,
        IA32_MC16_MISC,
        IA32_MC17_CTL,
        IA32_MC17_STATUS,
        IA32_MC17_ADDR,
        IA32_MC17_MISC,
        IA32_MC18_CTL,
        IA32_MC18_STATUS,
        IA32_MC18_ADDR,
        IA32_MC18_MISC,
        IA32_MC19_CTL,
        IA32_MC19_STATUS,
        IA32_MC19_ADDR,
        IA32_MC19_MISC,
        IA32_MC20_CTL,
        IA32_MC20_STATUS,
        IA32_MC20_ADDR,
        IA32_MC20_MISC,
        IA32_MC21_CTL,
        IA32_MC21_STATUS,
        IA32_MC21_ADDR,
        IA32_MC21_MISC,
        IA32_MC22_CTL,
        IA32_MC22_STATUS,
        IA32_MC22_ADDR,
        IA32_MC22_MISC,
        IA32_MC23_CTL,
        IA32_MC23_STATUS,
        IA32_MC23_ADDR,
        IA32_MC23_MISC,
        IA32_MC24_CTL,
        IA32_MC24_STATUS,
        IA32_MC24_ADDR,
        IA32_MC24_MISC,
        IA32_MC25_CTL,
        IA32_MC25_STATUS,
        IA32_MC25_ADDR,
        IA32_MC25_MISC,
        IA32_MC26_CTL,
        IA32_MC26_STATUS,
        IA32_MC26_ADDR,
        IA32_MC26_MISC,
        IA32_MC27_CTL,
        IA32_MC27_STATUS,
        IA32_MC27_ADDR,
        IA32_MC27_MISC,
        IA32_MC28_CTL,
        IA32_MC28_STATUS,
        IA32_MC28_ADDR,
        IA32_MC28_MISC,
        IA32_MC29_CTL,
        IA32_MC29_STATUS,
        IA32_MC29_ADDR,
        IA32_MC29_MISC,
        IA32_MC30_CTL,
        IA32_MC30_STATUS,
        IA32_MC30_ADDR,
        IA32_MC30_MISC,
        IA32_MC31_CTL,
        IA32_MC31_STATUS,
        IA32_MC31_ADDR,
        IA32_MC31_MISC,
        IA32_TSC_DEADLINE,
        IA32_X2APIC_TPR,
        IA32_X2APIC_SIVR,
        IA32_X2APIC_ESR,
        IA32_X2APIC_LVT_CMCI,
        IA32_X2APIC_ICR,
        IA32_X2APIC_LVT_TIMER,
        IA32_X2APIC_LVT_THERMAL,
        IA32_X2APIC_LVT_PMI,
        IA32_X2APIC_LVT_LINT0,
        IA32_X2APIC_LVT_LINT1,
        IA32_X2APIC_LVT_ERROR,
        IA32_X2APIC_INIT_COUNT,
        IA32_X2APIC_DIV_CONF,
        IA32_EFER,
        IA32_STAR,
        IA32_LSTAR,
        IA32_CSTAR,
        IA32_FMASK,
        IA32_FS_BASE,
        IA32_GS_BASE,
        IA32_KERNEL_GS_BASE,
        IA32_TSC_AUX,
    ];
    assert(r@ =~= read_write_ia32_msr_list());
    r
}

/// The write only architectural MSRs that are permitted for CPU profiles, in order.
pub open spec fn write_only_ia32_msr_list() -> Seq<u32> {
    seq![
        IA32_PRED_CMD,
        IA32_FLUSH_CMD,
        IA32_X2APIC_EOI,
        IA32_X2APIC_SELF_IPI,
    ]
}

/// Write-only architectural MSRs that are permitted for CPU profiles.
pub fn write_only_ia32_msrs() -> (r: Vec<u32>)
    ensures
        r@ == write_only_ia32_msr_list(),
{
    let r = vec![
        IA32_PRED_CMD,
        IA32_FLUSH_CMD,
        IA32_X2APIC_EOI,
        IA32_X2APIC_SELF_IPI,
    ];
    assert(r@ =~= write_only_ia32_msr_list());
    r
}

/// The architectural MSR address ranges that are forbidden for CPU profiles, in order.
pub open spec fn forbidden_ia32_msr_range_list() -> Seq<(u32, u32)> {
    seq![
        IA32_P5_MC_ADDR,
        IA32_P5_MC_TYPE,
        IA32_MONITOR_FILTER_SIZE,
        IA32_PLATFORM_ID,
        IA32_PPIN_CTL,
        IA32_PPIN,
        IA32_BIOS_UPDT_TRIG,
        IA32_FEATURE_ACTIVATION,
        IA32_FZM_RANGE_INDEX,
        IA32_SMRR_PHYS_BASE_MASK,
        IA32_PECI_HWP_REQUEST_INFO,
        IA32_MCU_ENUMERATION,
        IA32_MCU_STATUS,
        IA32_MKTME_KEYID_PARTITIONING,
        IA32_SGXLEPUBKEYHASH0,
        IA32_SGXLEPUBKEYHASH1,
        IA32_SGXLEPUBKEYHASH2,
        IA32_SGXLEPUBKEYHASH3,
        IA32_SGXLEPUBKEYHASH4,
        IA32_SGXLEPUBKEYHASH5,
        IA32_SMBASE,
        IA32_MISC_PACKAGE_CTLS,
        IA32_XAPIC_DISABLE_STATUS,
        IA32_OVERCLOCKING_STATUS,
        IA32_PMC0,
        IA32_PMC1,
        IA32_PMC2,
        IA32_PMC3,
        IA32_PMC4,
        IA32_PMC5,
        IA32_PMC6,
        IA32_PMC7,
        IA32_PMC8,
        IA32_PMC9,
        IA32_CORE_CAPABILITIES,
        IA32_UMWAIT_CONTROL,
        IA32_CLOCK_MODULATION,
        IA32_PLI_SSP,
        IA32_INTERRUPT_SSP_TABLE_ADDR,
        IA32_MPERF,
        IA32_APERF,
        IA32_TSX_FORCE_ABORT,
        IA32_TSX_CTRL,
        IA32_MCG_CTL,
        IA32_PERFEVTSEL0,
        IA32_PERFEVTSEL1,
        IA32_PERFEVTSEL2,
        IA32_PERFEVTSEL3,
        IA32_PERFEVTSEL4,
        IA32_PERFEVTSEL5,
        IA32_PERFEVTSEL6,
        IA32_PERFEVTSEL7,
        IA32_PERFEVTSEL8,
        IA32_PERFEVTSEL9,
        IA32_PERF_STATUS,
        IA32_PERF_CTL,
        IA32_THERM_INTERRUPT,
        IA32_THERM_STATUS,
        IA32_ENERGY_PERF_BIAS,
        IA32_PACKAGE_THERM_STATUS,
        IA32_PACKAGE_THERM_INTERRUPT,
        IA32_DEBUGCTL,
        IA32_LER_FROM_IP,
        IA32_LER_TO_IP,
        IA32_LER_INFO,
        IA32_MC_I_CTL2,
        IA32_INTEGRITY_STATUS,
        IA32_FIXED_CTRI,
        IA32_FIXED_CTR_CTRL,
        IA32_PERF_GLOBAL_STATUS,
        IA32_PERF_GLOBAL_CTRL,
        IA32_PERF_GLOBAL_STATUS_RESET,
        IA32_PERF_GLOBAL_STATUS_SET,
        IA32_PERF_GLOBAL_INUSE,
        IA32_PEBS_ENABLE,
        IA32_A_PMC0,
        IA32_A_PMC1,
        IA32_A_PMC2,
        IA32_A_PMC3,
        IA32_A_PMC4,
        IA32_A_PMC5,
        IA32_A_PMC6,
        IA32_A_PMC7,
        IA32_A_PMC8,
        IA32_A_PMC9,
        IA32_MCG_EXT_CTL,
        IA32_SGX_SVN_STATUS,
        IA32_RTIT_OUTPUT_BASE,
        IA32_RTIT_OUTPUT_MASK_PTRS,
        IA32_RTIT_CTL,
        IA32_RTIT_STATUS,
        IA32_RTIT_CR3_MATCH,
        IA32_RTIT_ADDR0_A,
        IA32_RTIT_ADDR0_B,
        IA32_RTIT_ADDR1_A,
        IA32_RTIT_ADDR1_B,
        IA32_RTIT_ADDR2_A,
        IA32_RTIT_ADDR2_B,
        IA32_RTIT_ADDR3_A,
        IA32_RTIT_ADDR3_B,
        IA32_DS_AREA,
        IA32_U_CET,
        IA32_S_CET,
        IA32_PKRS,
        IA32_PM_ENABLE,
        IA32_HWP_CAPABILITIES,
        IA32_HWP_REQUEST_PKG,
        IA32_HWP_INTERRUPT,
        IA32_HWP_REQUEST,
        IA32_HWP_CTL,
        IA32_HWP_STATUS,
        IA32_MCU_EXT_SERVICE,
        IA32_MCU_ROLLBACK_MIN_ID,
        IA32_ROLLBACK_SIGN_ID_0,
        IA32_ROLLBACK_SIGN_ID_1,
        IA32_ROLLBACK_SIGN_ID_2,
        IA32_ROLLBACK_SIGN_ID_3,
        IA32_ROLLBACK_SIGN_ID_4,
        IA32_ROLLBACK_SIGN_ID_5,
        IA32_ROLLBACK_SIGN_ID_6,
        IA32_ROLLBACK_SIGN_ID_7,
        IA32_ROLLBACK_SIGN_ID_8,
        IA32_ROLLBACK_SIGN_ID_9,
        IA32_ROLLBACK_SIGN_ID_10,
        IA32_ROLLBACK_SIGN_ID_11,
        IA32_ROLLBACK_SIGN_ID_12,
        IA32_ROLLBACK_SIGN_ID_13,
        IA32_ROLLBACK_SIGN_ID_14,
        IA32_ROLLBACK_SIGN_ID_15,
        IA32_TME_CAPABILITY,
        IA32_TME_ACTIVATE,
        IA32_TME_EXCLUDE_MASK,
        IA32_TME_EXCLUDE_BASE,
        IA32_UINTR_RR,
        IA32_UINTR_HANDLER,
        IA32_UINTR_STACKADJUST,
        IA32_UINTR_MISC,
        IA32_UINTR_PD,
        IA32_UINTR_TT,
        IA32_COPY_STATUS,
        IA32_IWKEYBACKUP_STATUS,
        IA32_TME_CLEAR_SAVED_KEY,
        IA32_DEBUG_INTERFACE,
        IA32_L3_QOS_CFG,
        IA32_L2_QOS_CFG,
        IA32_L3_IO_QOS_CFG,
        IA32_RESOURCE_PRIORITY,
        IA32_RESOURCE_PRIORITY_PKG,
        IA32_QM_EVTSEL,
        IA32_QM_CTR,
        IA32_PQR_ASSOC,
        IA32_L3_MASK_0,
        IA32_L3_MASK_N,
        IA32_L2_MASK_0,
        IA32_L2_MASK_N,
        IA32_L2_QOS_EXT_BW_THRTL_I,
        IA32_BNDCFGS,
        IA32_COPY_LOCAL_TO_PLATFORM,
        IA32_COPY_PLATFORM_TO_LOCAL,
        IA32_PASID,
        IA32_XSS,
        IA32_PKG_HDC_CTL,
        IA32_PM_CTL1,
        IA32_THREAD_STALL,
        IA32_QOS_CORE_BW_THRTL_0,
        IA32_QOS_CORE_BW_THRTL_1,
        IA32_LBR_X_INFO,
        IA32_SEAMRR_BASE,
        IA32_SEAMRR_MASK,
        IA32_MCU_CONTROL,
        IA32_LBR_CTL,
        IA32_LBR_DEPTH,
        IA32_LBR_X_FROM_IP,
        IA32_LBR_X_TO_IP,
        IA32_HW_FEEDBACK_PTR,
        IA32_HW_FEEDBACK_CONFIG,
        IA32_HW_FEEDBACK_THREAD_CHAR,
        IA32_HW_FEEDBACK_THREAD_CONFIG,
        IA32_HRESET_ENABLE,
        IA32_PMC_GP0_CTR,
        IA32_PMC_GP0_CFG_A,
        IA32_PMC_GP0_CFG_C,
        IA32_PMC_GP1_CTR,
        IA32_PMC_GP1_CFG_A,
        IA32_PMC_GP1_CFG_C,
        IA32_PMC_GP2_CTR,
        IA32_PMC_GP2_CFG_A,
        IA32_PMC_GP2_CFG_B,
        IA32_PMC_GP2_CFG_C,
        IA32_PMC_GP3_CTR,
        IA32_PMC_GP3_CFG_A,
        IA32_PMC_GP3_CFG_B,
        IA32_PMC_GP3_CFG_C,
        IA32_PMC_GP4_CTR,
        IA32_PMC_GP4_CFG_A,
        IA32_PMC_GP4_CFG_B,
        IA32_PMC_GP4_CFG_C,
        IA32_PMC_GP5_CTR,
        IA32_PMC_GP5_CFG_A,
        IA32_PMC_GP5_CFG_B,
        IA32_PMC_GP5_CFG_C,
        IA32_PMC_GP6_CTR,
        IA32_PMC_GP6_CFG_A,
        IA32_PMC_GP6_CFG_B,
        IA32_PMC_GP6_CFG_C,
        IA32_PMC_GP7_CTR,
        IA32_PMC_GP7_CFG_A,
        IA32_PMC_GP7_CFG_B,
        IA32_PMC_GP7_CFG_C,
        IA32_PMC_GP8_CTR,
        IA32_PMC_GP8_CFG_A,
        IA32_PMC_GP9_CTR,
        IA32_PMC_GP9_CFG_A,
        IA32_PMC_FX0_CTR,
        IA32_PMC_FX0_CFG_B,
        IA32_PMC_FX0_CFG_C,
        IA32_PMC_FX1_CTR,
        IA32_PMC_FX1_CFG_B,
        IA32_PMC_FX1_CFG_C,
        IA32_PMC_FX2_CTR,
        IA32_PMC_FX2_CFG_C,
        IA32_PMC_FX3_CTR,
        IA32_PMC_FX4_CTR,
        IA32_PMC_FX4_CFG_C,
        IA32_PMC_FX5_CTR,
        IA32_PMC_FX5_CFG_C,
        IA32_PMC_FX6_CTR,
        IA32_PMC_FX6_CFG_C,
        IA32_UARCH_MISC_CTL,
    ]
}

/// A list of architectural MSR register address ranges (both ends inclusive) that are forbidden
/// for all non-host CPU profiles and also not considered MSR-based feature indices by KVM.
pub fn forbidden_ia32_msr_ranges() -> (r: Vec<(u32, u32)>)
    ensures
        r@ == forbidden_ia32_msr_range_list(),
{
    let r = vec![
        IA32_P5_MC_ADDR,
        IA32_P5_MC_TYPE,
        IA32_MONITOR_FILTER_SIZE,
        IA32_PLATFORM_ID,
        IA32_PPIN_CTL,
        IA32_PPIN,
        IA32_BIOS_UPDT_TRIG,
        IA32_FEATURE_ACTIVATION,
        IA32_FZM_RANGE_INDEX,
        IA32_SMRR_PHYS_BASE_MASK,
        IA32_PECI_HWP_REQUEST_INFO,
        IA32_MCU_ENUMERATION,
        IA32_MCU_STATUS,
        IA32_MKTME_KEYID_PARTITIONING,
        IA32_SGXLEPUBKEYHASH0,
        IA32_SGXLEPUBKEYHASH1,
        IA32_SGXLEPUBKEYHASH2,
        IA32_SGXLEPUBKEYHASH3,
        IA32_SGXLEPUBKEYHASH4,
        IA32_SGXLEPUBKEYHASH5,
        IA32_SMBASE,
        IA32_MISC_PACKAGE_CTLS,
        IA32_XAPIC_DISABLE_STATUS,
        IA32_OVERCLOCKING_STATUS,
        IA32_PMC0,
        IA32_PMC1,
        IA32_PMC2,
        IA32_PMC3,
        IA32_PMC4,
        IA32_PMC5,
        IA32_PMC6,
        IA32_PMC7,
        IA32_PMC8,
        IA32_PMC9,
        IA32_CORE_CAPABILITIES,
        IA32_UMWAIT_CONTROL,
        IA32_CLOCK_MODULATION,
        IA32_PLI_SSP,
        IA32_INTERRUPT_SSP_TABLE_ADDR,
        IA32_MPERF,
        IA32_APERF,
        IA32_TSX_FORCE_ABORT,
        IA32_TSX_CTRL,
        IA32_MCG_CTL,
        IA32_PERFEVTSEL0,
        IA32_PERFEVTSEL1,
        IA32_PERFEVTSEL2,
        IA32_PERFEVTSEL3,
        IA32_PERFEVTSEL4,
        IA32_PERFEVTSEL5,
        IA32_PERFEVTSEL6,
        IA32_PERFEVTSEL7,
        IA32_PERFEVTSEL8,
        IA32_PERFEVTSEL9,
        IA32_PERF_STATUS,
        IA32_PERF_CTL,
        IA32_THERM_INTERRUPT,
        IA32_THERM_STATUS,
        IA32_ENERGY_PERF_BIAS,
        IA32_PACKAGE_THERM_STATUS,
        IA32_PACKAGE_THERM_INTERRUPT,
        IA32_DEBUGCTL,
        IA32_LER_FROM_IP,
        IA32_LER_TO_IP,
        IA32_LER_INFO,
        IA32_MC_I_CTL2,
        IA32_INTEGRITY_STATUS,
        IA32_FIXED_CTRI,
        IA32_FIXED_CTR_CTRL,
        IA32_PERF_GLOBAL_STATUS,
        IA32_PERF_GLOBAL_CTRL,
        IA32_PERF_GLOBAL_STATUS_RESET,
        IA32_PERF_GLOBAL_STATUS_SET,
        IA32_PERF_GLOBAL_INUSE,
        IA32_PEBS_ENABLE,
        IA32_A_PMC0,
        IA32_A_PMC1,
        IA32_A_PMC2,
        IA32_A_PMC3,
        IA32_A_PMC4,
        IA32_A_PMC5,
        IA32_A_PMC6,
        IA32_A_PMC7,
        IA32_A_PMC8,
        IA32_A_PMC9,
        IA32_MCG_EXT_CTL,
        IA32_SGX_SVN_STATUS,
        IA32_RTIT_OUTPUT_BASE,
        IA32_RTIT_OUTPUT_MASK_PTRS,
        IA32_RTIT_CTL,
        IA32_RTIT_STATUS,
        IA32_RTIT_CR3_MATCH,
        IA32_RTIT_ADDR0_A,
        IA32_RTIT_ADDR0_B,
        IA32_RTIT_ADDR1_A,
        IA32_RTIT_ADDR1_B,
        IA32_RTIT_ADDR2_A,
        IA32_RTIT_ADDR2_B,
        IA32_RTIT_ADDR3_A,
        IA32_RTIT_ADDR3_B,
        IA32_DS_AREA,
        IA32_U_CET,
        IA32_S_CET,
        IA32_PKRS,
        IA32_PM_ENABLE,
        IA32_HWP_CAPABILITIES,
        IA32_HWP_REQUEST_PKG,
        IA32_HWP_INTERRUPT,
        IA32_HWP_REQUEST,
        IA32_HWP_CTL,
        IA32_HWP_STATUS,
        IA32_MCU_EXT_SERVICE,
        IA32_MCU_ROLLBACK_MIN_ID,
        IA32_ROLLBACK_SIGN_ID_0,
        IA32_ROLLBACK_SIGN_ID_1,
        IA32_ROLLBACK_SIGN_ID_2,
        IA32_ROLLBACK_SIGN_ID_3,
        IA32_ROLLBACK_SIGN_ID_4,
        IA32_ROLLBACK_SIGN_ID_5,
        IA32_ROLLBACK_SIGN_ID_6,
        IA32_ROLLBACK_SIGN_ID_7,
        IA32_ROLLBACK_SIGN_ID_8,
        IA32_ROLLBACK_SIGN_ID_9,
        IA32_ROLLBACK_SIGN_ID_10,
        IA32_ROLLBACK_SIGN_ID_11,
        IA32_ROLLBACK_SIGN_ID_12,
        IA32_ROLLBACK_SIGN_ID_13,
        IA32_ROLLBACK_SIGN_ID_14,
        IA32_ROLLBACK_SIGN_ID_15,
        IA32_TME_CAPABILITY,
        IA32_TME_ACTIVATE,
        IA32_TME_EXCLUDE_MASK,
        IA32_TME_EXCLUDE_BASE,
        IA32_UINTR_RR,
        IA32_UINTR_HANDLER,
        IA32_UINTR_STACKADJUST,
        IA32_UINTR_MISC,
        IA32_UINTR_PD,
        IA32_UINTR_TT,
        IA32_COPY_STATUS,
        IA32_IWKEYBACKUP_STATUS,
        IA32_TME_CLEAR_SAVED_KEY,
        IA32_DEBUG_INTERFACE,
        IA32_L3_QOS_CFG,
        IA32_L2_QOS_CFG,
        IA32_L3_IO_QOS_CFG,
        IA32_RESOURCE_PRIORITY,
        IA32_RESOURCE_PRIORITY_PKG,
        IA32_QM_EVTSEL,
        IA32_QM_CTR,
        IA32_PQR_ASSOC,
        IA32_L3_MASK_0,
        IA32_L3_MASK_N,
        IA32_L2_MASK_0,
        IA32_L2_MASK_N,
        IA32_L2_QOS_EXT_BW_THRTL_I,
        IA32_BNDCFGS,
        IA32_COPY_LOCAL_TO_PLATFORM,
        IA32_COPY_PLATFORM_TO_LOCAL,
        IA32_PASID,
        IA32_XSS,
        IA32_PKG_HDC_CTL,
        IA32_PM_CTL1,
        IA32_THREAD_STALL,
        IA32_QOS_CORE_BW_THRTL_0,
        IA32_QOS_CORE_BW_THRTL_1,
        IA32_LBR_X_INFO,
        IA32_SEAMRR_BASE,
        IA32_SEAMRR_MASK,
        IA32_MCU_CONTROL,
        IA32_LBR_CTL,
        IA32_LBR_DEPTH,
        IA32_LBR_X_FROM_IP,
        IA32_LBR_X_TO_IP,
        IA32_HW_FEEDBACK_PTR,
        IA32_HW_FEEDBACK_CONFIG,
        IA32_HW_FEEDBACK_THREAD_CHAR,
        IA32_HW_FEEDBACK_THREAD_CONFIG,
        IA32_HRESET_ENABLE,
        IA32_PMC_GP0_CTR,
        IA32_PMC_GP0_CFG_A,
        IA32_PMC_GP0_CFG_C,
        IA32_PMC_GP1_CTR,
        IA32_PMC_GP1_CFG_A,
        IA32_PMC_GP1_CFG_C,
        IA32_PMC_GP2_CTR,
        IA32_PMC_GP2_CFG_A,
        IA32_PMC_GP2_CFG_B,
        IA32_PMC_GP2_CFG_C,
        IA32_PMC_GP3_CTR,
        IA32_PMC_GP3_CFG_A,
        IA32_PMC_GP3_CFG_B,
        IA32_PMC_GP3_CFG_C,
        IA32_PMC_GP4_CTR,
        IA32_PMC_GP4_CFG_A,
        IA32_PMC_GP4_CFG_B,
        IA32_PMC_GP4_CFG_C,
        IA32_PMC_GP5_CTR,
        IA32_PMC_GP5_CFG_A,
        IA32_PMC_GP5_CFG_B,
        IA32_PMC_GP5_CFG_C,
        IA32_PMC_GP6_CTR,
        IA32_PMC_GP6_CFG_A,
        IA32_PMC_GP6_CFG_B,
        IA32_PMC_GP6_CFG_C,
        IA32_PMC_GP7_CTR,
        IA32_PMC_GP7_CFG_A,
        IA32_PMC_GP7_CFG_B,
        IA32_PMC_GP7_CFG_C,
        IA32_PMC_GP8_CTR,
        IA32_PMC_GP8_CFG_A,
        IA32_PMC_GP9_CTR,
        IA32_PMC_GP9_CFG_A,
        IA32_PMC_FX0_CTR,
        IA32_PMC_FX0_CFG_B,
        IA32_PMC_FX0_CFG_C,
        IA32_PMC_FX1_CTR,
        IA32_PMC_FX1_CFG_B,
        IA32_PMC_FX1_CFG_C,
        IA32_PMC_FX2_CTR,
        IA32_PMC_FX2_CFG_C,
        IA32_PMC_FX3_CTR,
        IA32_PMC_FX4_CTR,
        IA32_PMC_FX4_CFG_C,
        IA32_PMC_FX5_CTR,
        IA32_PMC_FX5_CFG_C,
        IA32_PMC_FX6_CTR,
        IA32_PMC_FX6_CFG_C,
        IA32_UARCH_MISC_CTL,
    ];
    assert(r@ =~= forbidden_ia32_msr_range_list());
    r
}

/// Append the MSRs of `msrs` to `permitted`, in order.
fn insert_msrs(permitted: &mut Vec<u32>, msrs: &Vec<u32>)
    ensures
        final(permitted)@ == old(permitted)@ + msrs@,
{
    let ghost start = permitted@;
    let mut i: usize = 0;
    while i < msrs.len()
        invariant
            i <= msrs.len(),
            permitted@ == start + msrs@.subrange(0, i as int),
        decreases msrs.len() - i,
    {
        permitted.push(msrs[i]);
        i += 1;
        assert(permitted@ =~= start + msrs@.subrange(0, i as int));
    }
    assert(msrs@.subrange(0, msrs@.len() as int) =~= msrs@);
}

/// A list of permitted Intel IA32 MSRs that are not considered MSR-based feature indices by
/// KVM: the read-only ones, then the write-only ones, then the readable and writable ones.
///
/// The MSRs listed here can be studied further in Table 2.2 in Section 2.1 of the Intel SDM
/// Vol. 4 from October 2025
pub fn permitted_ia32_msrs() -> (r: Vec<u32>)
    ensures
        r@ == read_only_ia32_msr_list() + write_only_ia32_msr_list() + read_write_ia32_msr_list(),
        r.len() == 242,
{
    let read_only = read_only_ia32_msrs();
    let write_only = write_only_ia32_msrs();
    let read_write = read_write_ia32_msrs();
    let mut permitted: Vec<u32> = Vec::new();
    // Insert read only msrs
    insert_msrs(&mut permitted, &read_only);
    // Insert write only msrs
    insert_msrs(&mut permitted, &write_only);
    // Insert read & write msrs
    insert_msrs(&mut permitted, &read_write);
    assert(permitted@ =~= read_only_ia32_msr_list() + write_only_ia32_msr_list() + read_write_ia32_msr_list());
    permitted
}

} // verus!
