//! Registration records: flags, renames, conditional-compilation
//! predicates, and the virtual dispatch callback.

use method_registration::calls::PtrcallType;
use method_registration::registration::{
    AttrKind, Attribute, FuncDefinition, MethodFlags, RegistrationRecord, make_method_flags,
    make_method_registration, make_virtual_callback,
};
use method_registration::signature::{
    FnParam, MethodDeclaration, ParamName, ReceiverType, SignatureError, SignatureInfo,
};

fn decl(name: &str, params: Vec<FnParam>, return_ty: Option<&str>) -> MethodDeclaration {
    MethodDeclaration {
        name: name.to_string(),
        params,
        return_ty: return_ty.map(|t| t.to_string()),
    }
}

fn definition(func: MethodDeclaration, rename: Option<&str>) -> FuncDefinition {
    FuncDefinition {
        func,
        external_attributes: Vec::new(),
        rename: rename.map(|r| r.to_string()),
        has_gd_self: false,
    }
}

fn named(name: &str, ty: &str) -> FnParam {
    FnParam::Typed {
        name: ParamName::Named(name.to_string()),
        ty: ty.to_string(),
    }
}

#[test]
fn static_receiver_maps_to_static_flag_and_no_other() {
    assert_eq!(
        make_method_flags(ReceiverType::Static),
        MethodFlags::StaticFlags
    );
    for receiver in [ReceiverType::Ref, ReceiverType::Mut, ReceiverType::GdSelf] {
        assert_eq!(make_method_flags(receiver), MethodFlags::DefaultFlags);
    }
}

fn registered(d: FuncDefinition) -> RegistrationRecord {
    make_method_registration(&"Actor".to_string(), d).unwrap()
}

#[test]
fn rename_changes_external_name_but_not_the_invoked_symbol() {
    let d = definition(
        decl(
            "foo",
            vec![FnParam::Receiver { is_ref: true, is_mut: false }],
            None,
        ),
        Some("bar"),
    );
    let rec = registered(d);
    assert_eq!(rec.external_name, "bar");
    assert_eq!(
        rec.varcall_func.invocation.wrapped_method.target_call,
        Some("foo".to_string())
    );
    assert_eq!(
        rec.ptrcall_func.invocation.wrapped_method.target_call,
        Some("foo".to_string())
    );
}

#[test]
fn declared_name_is_used_when_no_rename_is_given() {
    let d = definition(
        decl(
            "foo",
            vec![FnParam::Receiver { is_ref: true, is_mut: false }],
            None,
        ),
        None,
    );
    let rec = registered(d);
    assert_eq!(rec.external_name, "foo");
    assert_eq!(rec.class_name, "Actor");
}

#[test]
fn registration_assembles_signature_and_flags() {
    let d = definition(
        decl(
            "blend",
            vec![
                FnParam::Receiver { is_ref: true, is_mut: true },
                named("weight", "i64"),
                FnParam::Typed { name: ParamName::Ignored, ty: "bool".to_string() },
            ],
            Some("i64"),
        ),
        None,
    );
    let rec = registered(d);
    assert_eq!(rec.flags, MethodFlags::DefaultFlags);
    assert_eq!(
        rec.param_names,
        vec!["weight".to_string(), "__unnamed_0".to_string()]
    );
    assert_eq!(rec.varcall_func.invocation.sig_tuple.ret_type, "i64");
    assert_eq!(
        rec.varcall_func.invocation.sig_tuple.param_types,
        vec!["i64".to_string(), "bool".to_string()]
    );
    assert_eq!(rec.varcall_func.panic_context, "blend");
    assert_eq!(rec.ptrcall_func.invocation.call_type, PtrcallType::Standard);
    assert_eq!(rec.varcall_func.invocation.wrapped_method.before_call, None);
}

#[test]
fn registration_fails_on_the_analyzer_inconsistencies() {
    let mut d = definition(
        decl(
            "clash",
            vec![FnParam::Receiver { is_ref: true, is_mut: false }],
            None,
        ),
        None,
    );
    d.has_gd_self = true;
    let r = make_method_registration(&"Actor".to_string(), d);
    assert_eq!(r.unwrap_err(), SignatureError::ReceiverMarkerConflict);

    let d = definition(
        decl(
            "take",
            vec![FnParam::Receiver { is_ref: false, is_mut: false }],
            None,
        ),
        None,
    );
    let r = make_method_registration(&"Actor".to_string(), d);
    assert_eq!(r.unwrap_err(), SignatureError::UnsupportedReceiver);
}

#[test]
fn cfg_predicates_are_transported_verbatim_and_in_order() {
    let mut d = definition(
        decl(
            "gated",
            vec![FnParam::Receiver { is_ref: true, is_mut: false }],
            None,
        ),
        None,
    );
    d.external_attributes = vec![
        Attribute { kind: AttrKind::Other, content: "inline".to_string() },
        Attribute { kind: AttrKind::Cfg, content: "feature = \"tools\"".to_string() },
        Attribute { kind: AttrKind::Other, content: "allow(dead_code)".to_string() },
        Attribute { kind: AttrKind::Cfg, content: "not(test)".to_string() },
    ];
    let rec = registered(d);
    assert_eq!(rec.cfg_attrs.len(), 2);
    assert_eq!(rec.cfg_attrs[0].kind, AttrKind::Cfg);
    assert_eq!(rec.cfg_attrs[0].content, "feature = \"tools\"");
    assert_eq!(rec.cfg_attrs[1].content, "not(test)");
}

#[test]
fn no_cfg_predicate_means_an_ungated_registration() {
    let d = definition(
        decl(
            "plain",
            vec![FnParam::Receiver { is_ref: true, is_mut: false }],
            None,
        ),
        None,
    );
    let rec = registered(d);
    assert!(rec.cfg_attrs.is_empty());
}

#[test]
fn virtual_callback_is_always_virtual_and_hook_free() {
    for receiver in [ReceiverType::Ref, ReceiverType::Mut, ReceiverType::GdSelf] {
        let s = SignatureInfo {
            method_name: "process".to_string(),
            receiver_type: receiver,
            param_idents: vec!["delta".to_string()],
            param_types: vec!["f64x".to_string()],
            ret_type: "()".to_string(),
        };
        let f = make_virtual_callback(&"Actor".to_string(), s);
        assert_eq!(f.invocation.call_type, PtrcallType::Virtual);
        assert_eq!(f.panic_context, "process");
        assert_eq!(f.invocation.wrapped_method.before_call, None);
        assert_eq!(
            f.invocation.wrapped_method.target_call,
            Some("process".to_string())
        );
        assert_eq!(f.invocation.wrapped_method.args, vec!["delta".to_string()]);
    }
}
