//! Register addresses and the description of the bit fields of MSR values.
use crate::intel_table::{
    feature_definitions, feature_msr_addresses, ia32_vmx_misc_definition_list,
    intel_msr_feature_definitions, lemma_feature_definitions_well_formed,
};
use vstd::prelude::*;

verus! {

/// The address of a model-specific register (MSR).
#[derive(Clone, Copy, Debug)]
pub struct RegisterAddress(pub u32);

impl RegisterAddress {
    pub const IA32_BIOS_SIGN_ID: u32 = 0x8b;
    pub const IA32_ARCH_CAPABILITIES: u32 = 0x10a;
    pub const IA32_PERF_CAPABILITIES: u32 = 0x345;
    pub const IA32_VMX_BASIC: u32 = 0x480;
    pub const IA32_VMX_PINBASED_CTLS: u32 = 0x481;
    pub const IA32_VMX_PROCBASED_CTLS: u32 = 0x482;
    pub const IA32_VMX_EXIT_CTLS: u32 = 0x483;
    pub const IA32_VMX_ENTRY_CTLS: u32 = 0x484;
    pub const IA32_VMX_MISC: u32 = 0x485;
    pub const IA32_VMX_CR0_FIXED0: u32 = 0x486;
    pub const IA32_VMX_CR0_FIXED1: u32 = 0x487;
    pub const IA32_VMX_CR4_FIXED0: u32 = 0x488;
    pub const IA32_VMX_CR4_FIXED1: u32 = 0x489;
    pub const IA32_VMX_VMCS_ENUM: u32 = 0x48a;
    pub const IA32_VMX_PROCBASED_CTLS2: u32 = 0x48b;
    pub const IA32_VMX_EPT_VPID_CAP: u32 = 0x48c;
    pub const IA32_VMX_TRUE_PINBASED_CTLS: u32 = 0x48d;
    pub const IA32_VMX_TRUE_PROCBASED_CTLS: u32 = 0x48e;
    pub const IA32_VMX_TRUE_EXIT_CTLS: u32 = 0x48f;
    pub const IA32_VMX_TRUE_ENTRY_CTLS: u32 = 0x490;
    pub const IA32_VMX_VMFUNC: u32 = 0x491;
    pub const IA32_VMX_PROCBASED_CTLS3: u32 = 0x492;
    pub const IA32_VMX_EXIT_CTLS2: u32 = 0x493;
    // Non-architectural MSRs.
    /// KVM together with Intel Skylake reports this as an MSR-based feature.
    pub const MSR_PLATFORM_INFO: u32 = 0xce;
}

/// How a CPU profile treats a bit field of an MSR value.
#[derive(Clone, Copy, Debug, PartialEq, Eq, Structural)]
pub enum ProfilePolicy {
    /// The field keeps the value of the CPU that the profile is made from.
    Inherit,
    /// The field takes the value of the host that the profile is applied on.
    Passthrough,
    /// The MSR may not be used with a CPU profile.
    Deny,
    /// The field always has the given value.
    Static(u64),
}

/// The description of one bit field of an MSR value.
#[derive(Clone, Copy, Debug)]
pub struct ValueDefinition {
    /// Short name of the field (Intel's where it has one).
    pub short: &'static str,
    /// What the field means.
    pub description: &'static str,
    /// The first and the last bit of the field (both inclusive).
    pub bits_range: (u8, u8),
    /// How CPU profiles treat the field.
    pub policy: ProfilePolicy,
}

/// The value definition with the given fields.
pub open spec fn definition(
    short: &'static str,
    description: &'static str,
    bits_range: (u8, u8),
    policy: ProfilePolicy,
) -> ValueDefinition {
    ValueDefinition { short, description, bits_range, policy }
}

/// Every field lies within bits 0 to 63, and the fields are listed in ascending order of their
/// bit ranges, without overlap.
pub open spec fn definitions_well_formed(defs: Seq<ValueDefinition>) -> bool {
    &&& forall|i: int|
        0 <= i < defs.len() ==> (#[trigger] defs[i]).bits_range.0 <= defs[i].bits_range.1
            && defs[i].bits_range.1 < 64
    &&& forall|i: int, j: int|
        0 <= i < j < defs.len() ==> (#[trigger] defs[i]).bits_range.1 < (#[trigger] defs[j]).bits_range.0
}

/// The fields from index `k` on lie within bits 0 to 63, and each one ends below the start of
/// the next one.
pub open spec fn ordered_from(defs: Seq<ValueDefinition>, k: int) -> bool
    decreases defs.len() - k,
{
    if k < 0 || k >= defs.len() {
        true
    } else {
        &&& defs[k].bits_range.0 <= defs[k].bits_range.1
        &&& defs[k].bits_range.1 < 64
        &&& (k + 1 < defs.len() ==> defs[k].bits_range.1 < defs[k + 1].bits_range.0)
        &&& ordered_from(defs, k + 1)
    }
}

/// When the fields are ordered from index `k` on, every field from `k` on lies within bits 0 to
/// 63, and any two of them are in ascending order without overlap.
pub proof fn lemma_ordered_from(defs: Seq<ValueDefinition>, k: int)
    requires
        0 <= k <= defs.len(),
        ordered_from(defs, k),
    ensures
        forall|i: int|
            k <= i < defs.len() ==> (#[trigger] defs[i]).bits_range.0 <= defs[i].bits_range.1
                && defs[i].bits_range.1 < 64,
        forall|i: int, j: int|
            k <= i < j < defs.len() ==> (#[trigger] defs[i]).bits_range.1 < (#[trigger] defs[j]).bits_range.0,
    decreases defs.len() - k,
{
    if k < defs.len() {
        lemma_ordered_from(defs, k + 1);
        assert forall|i: int, j: int|
            k <= i < j < defs.len() implies (#[trigger] defs[i]).bits_range.1 < (#[trigger] defs[j]).bits_range.0 by {
            if i == k && j > k + 1 {
                assert(defs[k + 1].bits_range.1 < defs[j].bits_range.0);
            }
        }
    }
}

/// `addr` is the address of one of the MSRs that the feature table describes.
pub open spec fn is_feature_msr(addr: u32) -> bool {
    feature_msr_addresses().contains(addr)
}

/// The value definitions of the MSR at `reg_addr`, looked up in the feature table.
pub fn msr_definitions(reg_addr: u32) -> (r: Vec<ValueDefinition>)
    requires
        is_feature_msr(reg_addr),
    ensures
        r@ == feature_definitions(reg_addr),
        definitions_well_formed(r@),
{
    proof {
        lemma_feature_definitions_well_formed(reg_addr);
    }
    let mut table = intel_msr_feature_definitions();
    let length = table.len();
    let mut i: usize = 0;
    while i < length
        invariant
            length == table.len(),
            length == feature_msr_addresses().len(),
            i <= length,
            forall|j: int|
                0 <= j < table.len() ==> (#[trigger] table[j]).0.0 == feature_msr_addresses()[j]
                    && table[j].1@ == feature_definitions(table[j].0.0),
            forall|j: int| 0 <= j < i ==> feature_msr_addresses()[j] != reg_addr,
            definitions_well_formed(feature_definitions(reg_addr)),
        decreases length - i,
    {
        if table[i].0.0 == reg_addr {
            let (_, definitions) = table.swap_remove(i);
            return definitions;
        }
        i += 1;
    }
    proof {
        let j = choose|j: int| 0 <= j < feature_msr_addresses().len() && feature_msr_addresses()[j] == reg_addr;
        assert(feature_msr_addresses()[j] != reg_addr);
    }
    Vec::new()
}

/// The value definition of the MAX_MSR_STORE_LISTS field (bits 25 to 27) of IA32_VMX_MISC, the
/// definition at index 8 of that MSR.
pub fn max_msr_store_lists_def() -> (r: ValueDefinition)
    ensures
        r == feature_definitions(RegisterAddress::IA32_VMX_MISC)[8],
        r.bits_range == (25u8, 27u8),
{
    let defs = msr_definitions(RegisterAddress::IA32_VMX_MISC);
    proof {
        reveal(ia32_vmx_misc_definition_list);
    }
    assert(defs@.len() == 13);
    let def = defs[8];
    def
}

} // verus!
