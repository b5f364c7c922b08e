//! The forwarding adapter, the two calling-convention entry points, and the
//! boundary behavior of one invocation.

use method_registration::calls::{
    CallOutcome, CallErrorCode, PtrSlot, PtrcallType, VariantSlot, VarcallEvent,
    make_ptrcall_func, make_signature_tuple_type, make_varcall_func, ptrcall_boundary,
    varcall_boundary,
};
use method_registration::forwarding::{BeforeKind, make_forwarding_closure};
use method_registration::signature::{ReceiverType, SignatureInfo};

fn sig(name: &str, receiver: ReceiverType, idents: &[&str], types: &[&str]) -> SignatureInfo {
    SignatureInfo {
        method_name: name.to_string(),
        receiver_type: receiver,
        param_idents: idents.iter().map(|s| s.to_string()).collect(),
        param_types: types.iter().map(|s| s.to_string()).collect(),
        ret_type: "()".to_string(),
    }
}

#[test]
fn forwarding_destructures_all_parameters_in_order() {
    let s = sig(
        "move_to",
        ReceiverType::Mut,
        &["x", "y", "__unnamed_0"],
        &["f32x", "f32x", "bool"],
    );
    let c = make_forwarding_closure(&"Actor".to_string(), &s, BeforeKind::Without);
    assert_eq!(c.args.len(), 3);
    assert_eq!(
        c.args,
        vec!["x".to_string(), "y".to_string(), "__unnamed_0".to_string()]
    );
    assert_eq!(c.class_name, "Actor");
    assert_eq!(c.receiver, ReceiverType::Mut);
    assert_eq!(c.before_call, None);
    assert_eq!(c.target_call, Some("move_to".to_string()));
}

#[test]
fn with_before_runs_hook_then_target() {
    let s = sig("ready", ReceiverType::Mut, &[], &[]);
    let c = make_forwarding_closure(&"Actor".to_string(), &s, BeforeKind::WithBefore);
    assert_eq!(c.before_call, Some("__before_ready".to_string()));
    assert_eq!(c.target_call, Some("ready".to_string()));
}

#[test]
fn only_before_omits_target_for_instance_receivers() {
    for receiver in [ReceiverType::Ref, ReceiverType::Mut] {
        let s = sig("ready", receiver, &[], &[]);
        let c = make_forwarding_closure(&"Actor".to_string(), &s, BeforeKind::OnlyBefore);
        assert_eq!(c.before_call, Some("__before_ready".to_string()));
        assert_eq!(c.target_call, None);
    }
}

#[test]
fn owning_handle_receiver_always_calls_target() {
    let s = sig("consume", ReceiverType::GdSelf, &[], &[]);
    let c = make_forwarding_closure(&"Actor".to_string(), &s, BeforeKind::OnlyBefore);
    assert_eq!(c.before_call, Some("__before_consume".to_string()));
    assert_eq!(c.target_call, Some("consume".to_string()));
}

#[test]
fn static_receiver_takes_no_hook() {
    let s = sig("tally", ReceiverType::Static, &["n"], &["i64"]);
    let c = make_forwarding_closure(&"Actor".to_string(), &s, BeforeKind::WithBefore);
    assert_eq!(c.before_call, None);
    assert_eq!(c.target_call, Some("tally".to_string()));
}

#[test]
fn entry_points_carry_diagnostic_context_and_signature() {
    let s = sig("move_to", ReceiverType::Ref, &["x"], &["f32x"]);
    let tuple = make_signature_tuple_type(&s.ret_type, &s.param_types);
    let c = make_forwarding_closure(&"Actor".to_string(), &s, BeforeKind::Without);
    let v = make_varcall_func(&s.method_name, &tuple, &c);
    assert_eq!(v.panic_context, "move_to");
    assert_eq!(v.invocation.method_name, "move_to");
    assert_eq!(v.invocation.sig_tuple.ret_type, "()");
    assert_eq!(v.invocation.sig_tuple.param_types, vec!["f32x".to_string()]);
    let p = make_ptrcall_func(&s.method_name, &tuple, &c);
    assert_eq!(p.panic_context, "move_to");
    assert_eq!(p.invocation.call_type, PtrcallType::Standard);
    assert_eq!(p.invocation.wrapped_method.args, vec!["x".to_string()]);
}

#[test]
fn varcall_panic_writes_nil_and_invalid_method() {
    let s = sig("crashy", ReceiverType::Mut, &[], &[]);
    let tuple = make_signature_tuple_type(&s.ret_type, &s.param_types);
    let c = make_forwarding_closure(&"Actor".to_string(), &s, BeforeKind::Without);
    let f = make_varcall_func(&s.method_name, &tuple, &c);
    let out = varcall_boundary(&f, VarcallEvent::Panicked);
    assert_eq!(out.return_slot, VariantSlot::Nil);
    assert_eq!(out.error_slot, Some(CallErrorCode::InvalidMethod));
    assert!(out.target_reached);
}

#[test]
fn varcall_conversion_failure_reports_like_a_panic() {
    let s = sig("typed", ReceiverType::Ref, &["a"], &["i64"]);
    let tuple = make_signature_tuple_type(&s.ret_type, &s.param_types);
    let c = make_forwarding_closure(&"Actor".to_string(), &s, BeforeKind::Without);
    let f = make_varcall_func(&s.method_name, &tuple, &c);
    let out = varcall_boundary(&f, VarcallEvent::ConversionFailed);
    assert_eq!(out.return_slot, VariantSlot::Nil);
    assert_eq!(out.error_slot, Some(CallErrorCode::InvalidMethod));
    assert!(!out.target_reached);
}

#[test]
fn varcall_success_writes_value_and_no_error() {
    let s = sig("typed", ReceiverType::Ref, &["a"], &["i64"]);
    let tuple = make_signature_tuple_type(&s.ret_type, &s.param_types);
    let c = make_forwarding_closure(&"Actor".to_string(), &s, BeforeKind::Without);
    let f = make_varcall_func(&s.method_name, &tuple, &c);
    let out = varcall_boundary(&f, VarcallEvent::Completed);
    assert_eq!(out.return_slot, VariantSlot::Value);
    assert_eq!(out.error_slot, None);
}

#[test]
fn ptrcall_panic_leaves_default_state_under_both_kinds() {
    let s = sig("typed", ReceiverType::Ref, &[], &[]);
    let tuple = make_signature_tuple_type(&s.ret_type, &s.param_types);
    let c = make_forwarding_closure(&"Actor".to_string(), &s, BeforeKind::Without);
    let f = make_ptrcall_func(&s.method_name, &tuple, &c);
    assert_eq!(
        ptrcall_boundary(&f, CallOutcome::Panicked).return_slot,
        PtrSlot::DefaultState
    );
    assert_eq!(
        ptrcall_boundary(&f, CallOutcome::Completed).return_slot,
        PtrSlot::Written
    );

    let s = sig("typed", ReceiverType::Ref, &[], &[]);
    let virtual_f =
        method_registration::registration::make_virtual_callback(&"Actor".to_string(), s);
    assert_eq!(virtual_f.invocation.call_type, PtrcallType::Virtual);
    assert_eq!(
        ptrcall_boundary(&virtual_f, CallOutcome::Panicked).return_slot,
        PtrSlot::DefaultState
    );
    assert_eq!(
        ptrcall_boundary(&virtual_f, CallOutcome::Completed).return_slot,
        PtrSlot::Written
    );
}
