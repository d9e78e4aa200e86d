# arch — MSR-based CPU feature compatibility (Intel)

Verified checks of whether the MSR-based features that KVM reports for one CPU (the source,
e.g. a CPU profile) are compatible with those of another (the destination, e.g. the host the
profile is applied on), together with the table that describes every bit field of these MSRs
and the lists of permitted and forbidden architectural MSRs.

Layout of `src/`:

- `bits.rs` — bit-level building blocks: `check_subset`, `conditional_select`,
  `for_each_bitpos`, `bit_range_mask`.
- `checks.rs` — the checks of single MSRs (IA32_ARCH_CAPABILITIES, IA32_VMX_BASIC, the VMX
  control MSRs, IA32_VMX_MISC, IA32_VMX_CRx_FIXED0, IA32_VMX_VMCS_ENUM, IA32_VMX_EPT_VPID_CAP).
- `compat.rs` — `check_feature_msr_compatibility`, which runs every check on two register maps
  and returns all incompatibilities it finds.
- `definitions.rs`, `intel_table.rs` — register addresses, value definitions and the feature
  table, with the proof that every register's definitions are ordered and disjoint.
- `architectural_msrs.rs` — permitted and forbidden architectural MSRs.
- `diagnostics.rs` — what is reported about the bits and fields on which a check failed.
- `laws.rs` — bit-level meaning of the checks, reflexivity and transitivity of compatibility.

`app/` reports the incompatibilities through the `log` crate.
