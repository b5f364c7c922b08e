//! Registration metadata: the method flags derived from the receiver kind,
//! the propagation of conditional-compilation predicates, the virtual
//! dispatch callback, and the registration record handed to the external
//! class registry.

use vstd::prelude::*;
use crate::signature::{
    MethodDeclaration, ReceiverType, SignatureError, SignatureInfo,
    has_receiver_conflict, has_unsupported_receiver, leading_receiver_only, param_idents_of,
    param_types_of, receiver_type_of, ret_type_of, str_views, get_signature_info,
};
use crate::forwarding::{
    BeforeKind, ForwardingClosure, make_forwarding_closure, clone_strings,
};
use crate::calls::{
    PtrcallFunc, PtrcallType, VarcallFunc, make_ptrcall_invocation, make_ptrcall_func,
    make_signature_tuple_type, make_varcall_func,
};

verus! {

/// The kind of a non-registration attribute carried on a declaration: a
/// conditional-compilation predicate, or anything else.
#[derive(Copy, Clone, Debug, PartialEq, Eq, Structural)]
pub enum AttrKind {
    Cfg,
    Other,
}

/// A non-registration attribute of the declared method, its arguments kept
/// verbatim as source text.
#[derive(Clone, Debug)]
pub struct Attribute {
    pub kind: AttrKind,
    pub content: String,
}

/// Everything the generator is handed about one method to register: the raw
/// declaration, its non-registration attributes, the optional name it is to
/// be exposed under in place of the declared one, and whether the caller
/// asserts an owning-handle receiver.
#[derive(Clone, Debug)]
pub struct FuncDefinition {
    pub func: MethodDeclaration,
    pub external_attributes: Vec<Attribute>,
    pub rename: Option<String>,
    pub has_gd_self: bool,
}

/// The flags under which a method is registered.
#[derive(Copy, Clone, Debug, PartialEq, Eq, Structural)]
pub enum MethodFlags {
    /// The registry's DEFAULT flags, for every instance method.
    DefaultFlags,
    /// The registry's STATIC flag.
    StaticFlags,
}

/// The flags derived from a receiver kind: `Static` and only `Static` maps
/// to the STATIC flag; every other receiver kind maps to DEFAULT.
pub open spec fn flags_of(receiver: ReceiverType) -> MethodFlags {
    match receiver {
        ReceiverType::Static => MethodFlags::StaticFlags,
        _ => MethodFlags::DefaultFlags,
    }
}

/// Derives the method flags from the receiver kind, a pure function with no
/// independent lifecycle.
pub fn make_method_flags(method_type: ReceiverType) -> (f: MethodFlags)
    ensures
        f == flags_of(method_type),
{
    match method_type {
        ReceiverType::Static => MethodFlags::StaticFlags,
        _ => MethodFlags::DefaultFlags,
    }
}

/// The STATIC flag arises from the static receiver kind and from no other.
pub proof fn lemma_static_flag_exactly(receiver: ReceiverType)
    ensures
        flags_of(receiver) == MethodFlags::StaticFlags <==> receiver == ReceiverType::Static,
{
}

/// The conditional-compilation predicates among `attrs`, verbatim and in
/// order.
pub open spec fn cfg_attrs_of(attrs: Seq<Attribute>) -> Seq<Attribute>
    decreases attrs.len(),
{
    if attrs.len() == 0 {
        Seq::empty()
    } else {
        (if attrs[0].kind == AttrKind::Cfg {
            seq![attrs[0]]
        } else {
            Seq::empty()
        }) + cfg_attrs_of(attrs.drop_first())
    }
}

/// Filtering distributes over concatenation.
pub proof fn lemma_cfg_attrs_concat(a: Seq<Attribute>, b: Seq<Attribute>)
    ensures
        cfg_attrs_of(a + b) == cfg_attrs_of(a) + cfg_attrs_of(b),
    decreases a.len(),
{
    if a.len() == 0 {
        assert(a + b =~= b);
        assert(cfg_attrs_of(a) + cfg_attrs_of(b) =~= cfg_attrs_of(b));
    } else {
        assert((a + b).drop_first() =~= a.drop_first() + b);
        assert((a + b)[0] == a[0]);
        lemma_cfg_attrs_concat(a.drop_first(), b);
        let head = if a[0].kind == AttrKind::Cfg {
            seq![a[0]]
        } else {
            Seq::<Attribute>::empty()
        };
        assert(head + (cfg_attrs_of(a.drop_first()) + cfg_attrs_of(b)) =~= (head + cfg_attrs_of(
            a.drop_first(),
        )) + cfg_attrs_of(b));
    }
}

/// Selects the conditional-compilation predicates to transport onto the
/// registration, verbatim: a method conditionally removed from compilation
/// must never produce a dangling registration.
pub fn extract_cfg_attrs(attributes: &Vec<Attribute>) -> (r: Vec<Attribute>)
    ensures
        r@ == cfg_attrs_of(attributes@),
{
    let mut r: Vec<Attribute> = Vec::new();
    let n = attributes.len();
    let mut i: usize = 0;
    while i < n
        invariant
            n == attributes@.len(),
            i <= n,
            r@ == cfg_attrs_of(attributes@.take(i as int)),
        decreases n - i,
    {
        let ghost prefix = attributes@.take(i as int);
        let ghost p = attributes@[i as int];
        match attributes[i].kind {
            AttrKind::Cfg => {
                r.push(
                    Attribute {
                        kind: AttrKind::Cfg,
                        content: attributes[i].content.clone(),
                    },
                );
            },
            AttrKind::Other => {},
        }
        proof {
            assert(attributes@.take(i as int + 1) =~= prefix + seq![p]);
            lemma_cfg_attrs_concat(prefix, seq![p]);
            assert(seq![p].drop_first() =~= Seq::<Attribute>::empty());
            assert(cfg_attrs_of(Seq::<Attribute>::empty()) =~= Seq::<Attribute>::empty());
            if p.kind == AttrKind::Cfg {
                assert(cfg_attrs_of(seq![p]) =~= seq![p]);
                assert(r@ =~= cfg_attrs_of(prefix) + seq![p]);
            } else {
                assert(cfg_attrs_of(seq![p]) =~= Seq::<Attribute>::empty());
                assert(r@ =~= cfg_attrs_of(prefix) + Seq::<Attribute>::empty());
            }
            assert(r@ == cfg_attrs_of(attributes@.take(i as int + 1)));
        }
        i = i + 1;
    }
    proof {
        assert(attributes@.take(n as int) =~= attributes@);
    }
    r
}

/// The record handed to the external class registry for one method: the
/// conditional-compilation predicates gating the whole registration, the
/// class and externally visible method names, the signature tuple, the
/// parameter name strings, the method flags, and the two generated entry
/// points. The registry's side owns it after hand-off; duplicate or
/// conflicting registrations are its concern.
#[derive(Clone, Debug)]
pub struct RegistrationRecord {
    pub cfg_attrs: Vec<Attribute>,
    pub class_name: String,
    pub external_name: String,
    pub param_names: Vec<String>,
    pub flags: MethodFlags,
    pub varcall_func: VarcallFunc,
    pub ptrcall_func: PtrcallFunc,
}

/// The name a method is exposed under: the rename when present, the declared
/// name otherwise.
pub open spec fn external_name_of(declared: Seq<char>, rename: Option<String>) -> Seq<char> {
    match rename {
        Option::Some(r) => r@,
        Option::None => declared,
    }
}

/// Full characterization of a registration record derived from definition
/// `d` for class `class`: names, parameter name strings, flags and
/// conditional-compilation predicates all arise from the declaration alone,
/// and both entry points wrap a hook-free forwarding adapter that invokes
/// the declared (never the renamed) method symbol.
pub open spec fn registration_spec(class: Seq<char>, d: FuncDefinition, r: RegistrationRecord) -> bool {
    let params = d.func.params@;
    &&& r.class_name@ == class
    &&& r.external_name@ == external_name_of(d.func.name@, d.rename)
    &&& r.cfg_attrs@ == cfg_attrs_of(d.external_attributes@)
    &&& str_views(r.param_names@) == param_idents_of(params)
    &&& r.flags == flags_of(receiver_type_of(params, d.has_gd_self))
    &&& r.varcall_func.panic_context@ == d.func.name@
    &&& r.varcall_func.invocation.method_name@ == d.func.name@
    &&& r.varcall_func.invocation.sig_tuple.ret_type@ == ret_type_of(d.func.return_ty)
    &&& str_views(r.varcall_func.invocation.sig_tuple.param_types@) == param_types_of(params)
    &&& wraps_hook_free_forwarding(class, d, r.varcall_func.invocation.wrapped_method)
    &&& r.ptrcall_func.panic_context@ == d.func.name@
    &&& r.ptrcall_func.invocation.method_name@ == d.func.name@
    &&& r.ptrcall_func.invocation.sig_tuple.ret_type@ == ret_type_of(d.func.return_ty)
    &&& str_views(r.ptrcall_func.invocation.sig_tuple.param_types@) == param_types_of(params)
    &&& r.ptrcall_func.invocation.call_type == PtrcallType::Standard
    &&& wraps_hook_free_forwarding(class, d, r.ptrcall_func.invocation.wrapped_method)
}

/// The forwarding adapter both registration entry points wrap: built
/// without hook insertion, destructuring the declaration's parameter
/// identifiers in order and invoking the declared method symbol.
pub open spec fn wraps_hook_free_forwarding(
    class: Seq<char>,
    d: FuncDefinition,
    c: ForwardingClosure,
) -> bool {
    &&& c.class_name@ == class
    &&& c.receiver == receiver_type_of(d.func.params@, d.has_gd_self)
    &&& str_views(c.args@) == param_idents_of(d.func.params@)
    &&& c.before_call is None
    &&& (c.target_call matches Some(t) && t@ == d.func.name@)
}

/// Generates the registration record for the given class and method
/// definition: analyzes the signature, derives the flags, builds the
/// hook-free forwarding adapter and wraps it under both calling
/// conventions, resolves the externally visible name, and transports the
/// conditional-compilation predicates verbatim. Fails, and only fails, on
/// the analyzer's two fatal inconsistencies, leaving other methods
/// unaffected.
pub fn make_method_registration(class_name: &String, func_definition: FuncDefinition) -> (r:
    Result<RegistrationRecord, SignatureError>)
    requires
        leading_receiver_only(func_definition.func.params@),
    ensures
        r is Err <==> (has_receiver_conflict(func_definition.func.params@, func_definition.has_gd_self)
            || has_unsupported_receiver(func_definition.func.params@, func_definition.has_gd_self)),
        has_receiver_conflict(func_definition.func.params@, func_definition.has_gd_self) ==> r
            == Result::<RegistrationRecord, SignatureError>::Err(
            SignatureError::ReceiverMarkerConflict,
        ),
        has_unsupported_receiver(func_definition.func.params@, func_definition.has_gd_self) ==> r
            == Result::<RegistrationRecord, SignatureError>::Err(
            SignatureError::UnsupportedReceiver,
        ),
        r matches Ok(rec) ==> registration_spec(class_name@, func_definition, rec),
{
    let signature_info = match get_signature_info(&func_definition.func, func_definition.has_gd_self) {
        Ok(s) => s,
        Err(e) => {
            return Err(e);
        },
    };
    let sig_tuple = make_signature_tuple_type(
        &signature_info.ret_type,
        &signature_info.param_types,
    );
    let method_flags = make_method_flags(signature_info.receiver_type);
    let forwarding_closure = make_forwarding_closure(
        class_name,
        &signature_info,
        BeforeKind::Without,
    );
    let varcall_func = make_varcall_func(&signature_info.method_name, &sig_tuple, &forwarding_closure);
    let ptrcall_func = make_ptrcall_func(&signature_info.method_name, &sig_tuple, &forwarding_closure);
    let method_name_str = match func_definition.rename {
        Option::Some(rename) => rename,
        Option::None => signature_info.method_name.clone(),
    };
    let param_names = clone_strings(&signature_info.param_idents);
    let cfg_attrs = extract_cfg_attrs(&func_definition.external_attributes);
    Ok(
        RegistrationRecord {
            cfg_attrs,
            class_name: class_name.clone(),
            external_name: method_name_str,
            param_names,
            flags: method_flags,
            varcall_func,
            ptrcall_func,
        },
    )
}

/// Generates the callback invoked when the host object system dispatches a
/// virtual method of this instance: exactly the direct (pointer) entry
/// point instantiated with calling-convention kind `Virtual`, wrapping a
/// forwarding adapter built without hook insertion. Virtual dispatch is
/// only ever generated for instance methods: there are no virtual static
/// methods.
pub fn make_virtual_callback(class_name: &String, signature_info: SignatureInfo) -> (f: PtrcallFunc)
    requires
        signature_info.receiver_type != ReceiverType::Static,
    ensures
        f.invocation.call_type == PtrcallType::Virtual,
        f.panic_context == signature_info.method_name,
        f.invocation.method_name == signature_info.method_name,
        f.invocation.sig_tuple.ret_type == signature_info.ret_type,
        f.invocation.sig_tuple.param_types@ == signature_info.param_types@,
        crate::forwarding::forwarding_spec(
            class_name@,
            signature_info,
            BeforeKind::Without,
            f.invocation.wrapped_method,
        ),
{
    let sig_tuple = make_signature_tuple_type(
        &signature_info.ret_type,
        &signature_info.param_types,
    );
    let wrapped_method = make_forwarding_closure(class_name, &signature_info, BeforeKind::Without);
    let invocation = make_ptrcall_invocation(
        &signature_info.method_name,
        &sig_tuple,
        &wrapped_method,
        true,
    );
    PtrcallFunc { panic_context: signature_info.method_name, invocation }
}

/// The rename law: a rename override changes the externally visible name
/// and nothing else — both generated adapters still invoke the declared
/// method symbol.
pub proof fn lemma_rename_separation(
    class: Seq<char>,
    d: FuncDefinition,
    rec: RegistrationRecord,
    new_name: String,
)
    requires
        registration_spec(class, d, rec),
        d.rename == Option::Some(new_name),
    ensures
        rec.external_name@ == new_name@,
        rec.varcall_func.invocation.wrapped_method.target_call matches Some(t) && t@
            == d.func.name@,
        rec.ptrcall_func.invocation.wrapped_method.target_call matches Some(t) && t@
            == d.func.name@,
{
}

} // verus!
