//! Compatibility checks of the MSR-based CPU features of Intel processors.
pub mod bits;
pub mod definitions;
pub mod intel_table;
pub mod checks;
pub mod compat;
pub mod diagnostics;
pub mod laws;
pub mod architectural_msrs;
pub mod check_laws;
pub mod report_laws;
