//! Which incompatibilities the compatibility check of two register maps reports, stated per
//! register: an entry appears for a register exactly when that register's check fails.
use crate::bits::bit_set;
use crate::checks::{
    arch_capabilities_result, cr_fixed0_result, ctls_result, ept_vpid_result, vmcs_enum_result,
    vmx_basic_result, vmx_misc_result, ValueMismatch,
};
use crate::compat::{
    ctls_failures, ctls_outcome, feature_msr_failures, lookup, true_ctls_exist, value_failures,
    value_pair, register_check_result, ControlsMismatch, MsrIncompatibility,
};
use vstd::prelude::*;

verus! {

/// The incompatibility that the check of the MSR at `register` reports with `mismatch`, when both
/// maps hold the MSR:
/// - IA32_ARCH_CAPABILITIES (0x10a), IA32_VMX_BASIC (0x480), IA32_VMX_MISC (0x485),
///   IA32_VMX_CR0_FIXED0 (0x486), IA32_VMX_CR4_FIXED0 (0x488), IA32_VMX_VMCS_ENUM (0x48a) and
///   IA32_VMX_EPT_VPID_CAP (0x48c) by their own checks;
/// - IA32_VMX_PROCBASED_CTLS2 (0x48b), IA32_VMX_VMFUNC (0x491), IA32_VMX_PROCBASED_CTLS3 (0x492)
///   and IA32_VMX_EXIT_CTLS2 (0x493) when a bit is set in the source value but clear in the
///   destination value, reporting exactly those bits;
/// - no other register.
pub open spec fn register_reports(src: Map<u32, u64>, dest: Map<u32, u64>, register: u32, mismatch: ValueMismatch) -> bool {
    match value_pair(src, dest, register) {
        None => false,
        Some((s, d)) => if register == 0x10a {
            arch_capabilities_result(s, d) == Err::<(), ValueMismatch>(mismatch)
        } else if register == 0x480 {
            vmx_basic_result(s, d) == Err::<(), ValueMismatch>(mismatch)
        } else if register == 0x485 {
            vmx_misc_result(s, d) == Err::<(), ValueMismatch>(mismatch)
        } else if register == 0x486 || register == 0x488 {
            cr_fixed0_result(s, d) == Err::<(), ValueMismatch>(mismatch)
        } else if register == 0x48a {
            vmcs_enum_result(s, d) == Err::<(), ValueMismatch>(mismatch)
        } else if register == 0x48c {
            ept_vpid_result(s, d) == Err::<(), ValueMismatch>(mismatch)
        } else if register == 0x48b || register == 0x491 || register == 0x492 || register == 0x493 {
            s & !d != 0 && mismatch == ValueMismatch {
                src_val: s,
                dest_val: d,
                bits_only_in_src: Some(s & !d),
                unequal: None,
                exceeds: None,
            }
        } else {
            false
        },
    }
}

/// The TRUE controls are used for a side when both sides have IA32_VMX_BASIC (0x480) and that
/// side's value has bit 55 set.
pub open spec fn uses_true_controls(own: Map<u32, u64>, other: Map<u32, u64>) -> bool {
    own.contains_key(0x480) && other.contains_key(0x480) && bit_set(own[0x480], 55)
}

/// The incompatibility `c` that the check of a VMX control MSR with a default1 class reports:
/// the pairs are IA32_VMX_PINBASED_CTLS (0x481) with IA32_VMX_TRUE_PINBASED_CTLS (0x48d),
/// IA32_VMX_PROCBASED_CTLS (0x482) with 0x48e, IA32_VMX_EXIT_CTLS (0x483) with 0x48f and
/// IA32_VMX_ENTRY_CTLS (0x484) with 0x490. Each side reads the TRUE register when it uses the
/// TRUE controls and the other register otherwise; the check fails when the source has the value
/// and the destination does not, or when both have values that fail the control check.
pub open spec fn controls_report(src: Map<u32, u64>, dest: Map<u32, u64>, c: ControlsMismatch) -> bool {
    &&& (c.ctrl_reg_address == 0x481 || c.ctrl_reg_address == 0x482 || c.ctrl_reg_address == 0x483
        || c.ctrl_reg_address == 0x484)
    &&& c.true_ctrl_reg_address == c.ctrl_reg_address + 12
    &&& c.src_reg_address == if uses_true_controls(src, dest) { c.true_ctrl_reg_address } else { c.ctrl_reg_address }
    &&& c.dest_reg_address == if uses_true_controls(dest, src) { c.true_ctrl_reg_address } else { c.ctrl_reg_address }
    &&& c.src_val == lookup(src, c.src_reg_address)
    &&& c.dest_val == lookup(dest, c.dest_reg_address)
    &&& c.src_val is Some
    &&& match c.dest_val {
        None => c.mismatch is None,
        Some(dv) => ctls_result(c.src_val->0, dv) matches Err(m) && c.mismatch == Some(m),
    }
}

proof fn lemma_concat_contains(a: Seq<MsrIncompatibility>, b: Seq<MsrIncompatibility>, x: MsrIncompatibility)
    ensures
        (a + b).contains(x) <==> (a.contains(x) || b.contains(x)),
{
    if (a + b).contains(x) {
        let k = choose|k: int| 0 <= k < (a + b).len() && (a + b)[k] == x;
        if k < a.len() {
            assert(a[k] == x);
        } else {
            assert(b[k - a.len()] == x);
        }
    }
    if a.contains(x) {
        let k = choose|k: int| 0 <= k < a.len() && a[k] == x;
        assert((a + b)[k] == x);
    }
    if b.contains(x) {
        let k = choose|k: int| 0 <= k < b.len() && b[k] == x;
        assert((a + b)[k + a.len()] == x);
    }
}

proof fn lemma_single_contains(e: MsrIncompatibility, x: MsrIncompatibility)
    ensures
        seq![e].contains(x) <==> x == e,
{
    if x == e {
        assert(seq![e][0] == x);
    }
}

proof fn lemma_value_component(src: Map<u32, u64>, dest: Map<u32, u64>, k: u32, x: MsrIncompatibility)
    ensures
        value_failures(src, dest, k).contains(x) <==> match x {
            MsrIncompatibility::Value { register, mismatch } => register == k && match value_pair(src, dest, k) {
                Some((s, d)) => register_check_result(k, s, d) == Err::<(), ValueMismatch>(mismatch),
                None => false,
            },
            MsrIncompatibility::Controls(_) => false,
        },
{
    if let Some((s, d)) = value_pair(src, dest, k) {
        if let Err(m) = register_check_result(k, s, d) {
            lemma_single_contains(MsrIncompatibility::Value { register: k, mismatch: m }, x);
        }
    }
}

proof fn lemma_controls_component(src: Map<u32, u64>, dest: Map<u32, u64>, ctrl: u32, true_ctrl: u32, x: MsrIncompatibility)
    ensures
        ctls_failures(src, dest, ctrl, true_ctrl).contains(x) <==> match x {
            MsrIncompatibility::Value { .. } => false,
            MsrIncompatibility::Controls(c) => {
                let flags = true_ctls_exist(src, dest);
                ctls_outcome(src, dest, ctrl, true_ctrl, flags.0, flags.1) == Err::<(), ControlsMismatch>(c)
            },
        },
{
    let flags = true_ctls_exist(src, dest);
    if let Err(c) = ctls_outcome(src, dest, ctrl, true_ctrl, flags.0, flags.1) {
        lemma_single_contains(MsrIncompatibility::Controls(c), x);
    }
}

/// An incompatibility is in the list of `feature_msr_failures` exactly when one of its 15 parts
/// holds it.
proof fn lemma_failures_contains(src: Map<u32, u64>, dest: Map<u32, u64>, x: MsrIncompatibility)
    ensures
        feature_msr_failures(src, dest).contains(x) <==> {
            ||| value_failures(src, dest, 0x10a).contains(x)
            ||| value_failures(src, dest, 0x480).contains(x)
            ||| ctls_failures(src, dest, 0x481, 0x48d).contains(x)
            ||| ctls_failures(src, dest, 0x482, 0x48e).contains(x)
            ||| ctls_failures(src, dest, 0x483, 0x48f).contains(x)
            ||| ctls_failures(src, dest, 0x484, 0x490).contains(x)
            ||| value_failures(src, dest, 0x485).contains(x)
            ||| value_failures(src, dest, 0x486).contains(x)
            ||| value_failures(src, dest, 0x488).contains(x)
            ||| value_failures(src, dest, 0x48a).contains(x)
            ||| value_failures(src, dest, 0x48b).contains(x)
            ||| value_failures(src, dest, 0x492).contains(x)
            ||| value_failures(src, dest, 0x493).contains(x)
            ||| value_failures(src, dest, 0x48c).contains(x)
            ||| value_failures(src, dest, 0x491).contains(x)
        },
{
    let p1 = value_failures(src, dest, 0x10a);
    let p2 = value_failures(src, dest, 0x480);
    let p3 = ctls_failures(src, dest, 0x481, 0x48d);
    let p4 = ctls_failures(src, dest, 0x482, 0x48e);
    let p5 = ctls_failures(src, dest, 0x483, 0x48f);
    let p6 = ctls_failures(src, dest, 0x484, 0x490);
    let p7 = value_failures(src, dest, 0x485);
    let p8 = value_failures(src, dest, 0x486);
    let p9 = value_failures(src, dest, 0x488);
    let p10 = value_failures(src, dest, 0x48a);
    let p11 = value_failures(src, dest, 0x48b);
    let p12 = value_failures(src, dest, 0x492);
    let p13 = value_failures(src, dest, 0x493);
    let p14 = value_failures(src, dest, 0x48c);
    let p15 = value_failures(src, dest, 0x491);
    let s2 = p1 + p2;
    let s3 = s2 + p3;
    let s4 = s3 + p4;
    let s5 = s4 + p5;
    let s6 = s5 + p6;
    let s7 = s6 + p7;
    let s8 = s7 + p8;
    let s9 = s8 + p9;
    let s10 = s9 + p10;
    let s11 = s10 + p11;
    let s12 = s11 + p12;
    let s13 = s12 + p13;
    let s14 = s13 + p14;
    let s15 = s14 + p15;
    assert(feature_msr_failures(src, dest) == s15);
    lemma_concat_contains(p1, p2, x);
    lemma_concat_contains(s2, p3, x);
    lemma_concat_contains(s3, p4, x);
    lemma_concat_contains(s4, p5, x);
    lemma_concat_contains(s5, p6, x);
    lemma_concat_contains(s6, p7, x);
    lemma_concat_contains(s7, p8, x);
    lemma_concat_contains(s8, p9, x);
    lemma_concat_contains(s9, p10, x);
    lemma_concat_contains(s10, p11, x);
    lemma_concat_contains(s11, p12, x);
    lemma_concat_contains(s12, p13, x);
    lemma_concat_contains(s13, p14, x);
    lemma_concat_contains(s14, p15, x);
}

/// `k` is one of the registers whose values are compared on their own.
spec fn is_value_register(k: u32) -> bool {
    k == 0x10a || k == 0x480 || k == 0x485 || k == 0x486 || k == 0x488 || k == 0x48a || k == 0x48b
        || k == 0x492 || k == 0x493 || k == 0x48c || k == 0x491
}

#[verifier::spinoff_prover]
proof fn lemma_value_part(src: Map<u32, u64>, dest: Map<u32, u64>, k: u32, x: MsrIncompatibility)
    requires
        is_value_register(k),
    ensures
        value_failures(src, dest, k).contains(x) <==> match x {
            MsrIncompatibility::Value { register, mismatch } => register == k && register_reports(src, dest, k, mismatch),
            MsrIncompatibility::Controls(_) => false,
        },
{
    lemma_value_component(src, dest, k, x);
}

#[verifier::spinoff_prover]
proof fn lemma_controls_part(src: Map<u32, u64>, dest: Map<u32, u64>, ctrl: u32, x: MsrIncompatibility)
    requires
        ctrl == 0x481 || ctrl == 0x482 || ctrl == 0x483 || ctrl == 0x484,
    ensures
        ctls_failures(src, dest, ctrl, (ctrl + 12) as u32).contains(x) <==> match x {
            MsrIncompatibility::Value { .. } => false,
            MsrIncompatibility::Controls(c) => c.ctrl_reg_address == ctrl && controls_report(src, dest, c),
        },
{
    lemma_controls_component(src, dest, ctrl, (ctrl + 12) as u32, x);
    if src.contains_key(0x480) {
        let v = src[0x480];
        assert((v & (1u64 << 55u64) != 0) <==> ((v >> 55u64) & 1 == 1)) by (bit_vector);
    }
    if dest.contains_key(0x480) {
        let v = dest[0x480];
        assert((v & (1u64 << 55u64) != 0) <==> ((v >> 55u64) & 1 == 1)) by (bit_vector);
    }
}

#[verifier::spinoff_prover]
proof fn lemma_components(src: Map<u32, u64>, dest: Map<u32, u64>, x: MsrIncompatibility)
    ensures
        feature_msr_failures(src, dest).contains(x) <==> match x {
            MsrIncompatibility::Value { register, mismatch } => register_reports(src, dest, register, mismatch),
            MsrIncompatibility::Controls(c) => controls_report(src, dest, c),
        },
{
    lemma_failures_contains(src, dest, x);
    lemma_value_part(src, dest, 0x10a, x);
    lemma_value_part(src, dest, 0x480, x);
    lemma_value_part(src, dest, 0x485, x);
    lemma_value_part(src, dest, 0x486, x);
    lemma_value_part(src, dest, 0x488, x);
    lemma_value_part(src, dest, 0x48a, x);
    lemma_value_part(src, dest, 0x48b, x);
    lemma_value_part(src, dest, 0x492, x);
    lemma_value_part(src, dest, 0x493, x);
    lemma_value_part(src, dest, 0x48c, x);
    lemma_value_part(src, dest, 0x491, x);
    lemma_controls_part(src, dest, 0x481, x);
    lemma_controls_part(src, dest, 0x482, x);
    lemma_controls_part(src, dest, 0x483, x);
    lemma_controls_part(src, dest, 0x484, x);
}

/// An MSR whose values are compared is reported exactly when its check fails: the list of
/// incompatibilities holds `Value { register, mismatch }` exactly when [`register_reports`] says
/// that the check of `register` fails with `mismatch` (for IA32_VMX_PROCBASED_CTLS2/3,
/// IA32_VMX_EXIT_CTLS2 and IA32_VMX_VMFUNC: exactly when a bit is set in the source value but
/// clear in the destination value), and `Controls(c)` exactly when [`controls_report`] holds.
/// The check therefore succeeds exactly when no register reports an incompatibility.
pub proof fn lemma_incompatibilities_reported(src: Map<u32, u64>, dest: Map<u32, u64>)
    ensures
        forall|register: u32, mismatch: ValueMismatch|
            #[trigger] feature_msr_failures(src, dest).contains(MsrIncompatibility::Value { register, mismatch })
                <==> register_reports(src, dest, register, mismatch),
        forall|c: ControlsMismatch|
            #[trigger] feature_msr_failures(src, dest).contains(MsrIncompatibility::Controls(c))
                <==> controls_report(src, dest, c),
        feature_msr_failures(src, dest).len() == 0 <==> {
            &&& forall|register: u32, mismatch: ValueMismatch| !register_reports(src, dest, register, mismatch)
            &&& forall|c: ControlsMismatch| !controls_report(src, dest, c)
        },
{
    assert forall|register: u32, mismatch: ValueMismatch|
        #[trigger] feature_msr_failures(src, dest).contains(MsrIncompatibility::Value { register, mismatch })
            <==> register_reports(src, dest, register, mismatch) by {
        lemma_components(src, dest, MsrIncompatibility::Value { register, mismatch });
    }
    assert forall|c: ControlsMismatch|
        #[trigger] feature_msr_failures(src, dest).contains(MsrIncompatibility::Controls(c))
            <==> controls_report(src, dest, c) by {
        lemma_components(src, dest, MsrIncompatibility::Controls(c));
    }
    let f = feature_msr_failures(src, dest);
    if f.len() > 0 {
        let x = f[0];
        assert(f.contains(x));
        lemma_components(src, dest, x);
        match x {
            MsrIncompatibility::Value { register, mismatch } => {
                assert(register_reports(src, dest, register, mismatch));
            },
            MsrIncompatibility::Controls(c) => {
                assert(controls_report(src, dest, c));
            },
        }
    } else {
        assert forall|register: u32, mismatch: ValueMismatch| !register_reports(src, dest, register, mismatch) by {
            lemma_components(src, dest, MsrIncompatibility::Value { register, mismatch });
        }
        assert forall|c: ControlsMismatch| !controls_report(src, dest, c) by {
            lemma_components(src, dest, MsrIncompatibility::Controls(c));
        }
    }
}

} // verus!
