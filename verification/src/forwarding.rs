//! The forwarding adapter: the instance-call logic shared by both calling
//! conventions. It destructures the already-converted call arguments in
//! declaration order, acquires instance access as the receiver kind demands,
//! optionally invokes the before-hook, and invokes the target method.

use vstd::prelude::*;
use crate::signature::{ReceiverType, SignatureInfo};

verus! {

/// Whether, and how, a before-hook is woven into the forwarding adapter.
/// Chosen by the caller of the generator per registration; not part of the
/// canonical signature.
#[derive(Copy, Clone, Debug, PartialEq, Eq, Structural)]
pub enum BeforeKind {
    /// Call the target method only.
    Without,
    /// Call the conventionally named hook `__before_{method}`, then the
    /// target method.
    WithBefore,
    /// Call only the hook, never the target method; used for generated
    /// default lifecycle methods that lack a user body.
    OnlyBefore,
}

/// The description of one forwarding adapter. `args` is the ordered tuple of
/// argument identifiers the adapter destructures; `before_call` and
/// `target_call` are the method symbols it invokes, in that order, on the
/// freshly acquired instance access. The adapter's side effects are exactly
/// the access acquisition and those calls.
#[derive(Clone, Debug)]
pub struct ForwardingClosure {
    pub class_name: String,
    pub receiver: ReceiverType,
    pub args: Vec<String>,
    pub before_call: Option<String>,
    pub target_call: Option<String>,
}

/// The conventional name of the before-hook of `method`.
pub open spec fn before_ident(method: Seq<char>) -> Seq<char> {
    "__before_"@ + method
}

/// Whether the adapter for this receiver and hook choice invokes the hook:
/// static methods take no hook (they are never virtual), and `Without` asks
/// for none.
pub open spec fn hook_expected(receiver: ReceiverType, kind: BeforeKind) -> bool {
    receiver != ReceiverType::Static && kind != BeforeKind::Without
}

/// Whether the adapter omits the target-method call entirely: only under
/// `OnlyBefore`, and only for the two instance-reference receivers. An
/// owning-handle receiver is used only when a method body is guaranteed to
/// exist, so its target call is never omitted; a static method has no hook
/// to fall back on.
pub open spec fn target_omitted(receiver: ReceiverType, kind: BeforeKind) -> bool {
    kind == BeforeKind::OnlyBefore && (receiver == ReceiverType::Ref || receiver
        == ReceiverType::Mut)
}

/// Full characterization of the forwarding adapter built for `sig` under
/// `kind`: the destructured arguments are exactly the signature's parameter
/// identifiers, in order; the hook is invoked exactly when expected, under
/// its conventional name; the target method is invoked under the declared
/// method symbol exactly unless omitted.
pub open spec fn forwarding_spec(
    class: Seq<char>,
    sig: SignatureInfo,
    kind: BeforeKind,
    c: ForwardingClosure,
) -> bool {
    &&& c.class_name@ == class
    &&& c.receiver == sig.receiver_type
    &&& c.args@ == sig.param_idents@
    &&& (match c.before_call {
        Option::Some(h) => hook_expected(sig.receiver_type, kind) && h@ == before_ident(
            sig.method_name@,
        ),
        Option::None => !hook_expected(sig.receiver_type, kind),
    })
    &&& (match c.target_call {
        Option::Some(t) => !target_omitted(sig.receiver_type, kind) && t@ == sig.method_name@,
        Option::None => target_omitted(sig.receiver_type, kind),
    })
}

/// The method symbols the adapter invokes, in invocation order: the hook, if
/// any, strictly before the target method, if any.
pub open spec fn call_sequence(c: ForwardingClosure) -> Seq<Seq<char>> {
    (match c.before_call {
        Option::Some(h) => seq![h@],
        Option::None => Seq::empty(),
    }) + (match c.target_call {
        Option::Some(t) => seq![t@],
        Option::None => Seq::empty(),
    })
}

/// Builds the before-hook symbol for `method`.
fn before_method_ident(method: &String) -> (s: String)
    ensures
        s@ == before_ident(method@),
{
    let mut s = String::from_str("__before_");
    s.append(method.as_str());
    s
}

/// Copies a vector of strings.
pub fn clone_strings(v: &Vec<String>) -> (r: Vec<String>)
    ensures
        r@ == v@,
{
    let mut r: Vec<String> = Vec::new();
    let n = v.len();
    let mut i: usize = 0;
    while i < n
        invariant
            n == v@.len(),
            i <= n,
            r@ =~= v@.take(i as int),
        decreases n - i,
    {
        r.push(v[i].clone());
        proof {
            assert(v@.take(i as int + 1) =~= v@.take(i as int).push(v@[i as int]));
        }
        i = i + 1;
    }
    proof {
        assert(v@.take(n as int) =~= v@);
    }
    r
}

/// Builds the forwarding adapter for `signature_info` under `before_kind`:
/// the closure that both calling conventions wrap. It destructures exactly
/// the signature's parameters, in declared order, and forwards them to the
/// target method on the instance obtained from per-instance storage.
pub fn make_forwarding_closure(
    class_name: &String,
    signature_info: &SignatureInfo,
    before_kind: BeforeKind,
) -> (c: ForwardingClosure)
    ensures
        forwarding_spec(class_name@, *signature_info, before_kind, c),
{
    let before_call: Option<String> = match signature_info.receiver_type {
        ReceiverType::Static => Option::None,
        _ => match before_kind {
            BeforeKind::WithBefore | BeforeKind::OnlyBefore => Option::Some(
                before_method_ident(&signature_info.method_name),
            ),
            BeforeKind::Without => Option::None,
        },
    };
    let target_call: Option<String> = match signature_info.receiver_type {
        ReceiverType::Ref | ReceiverType::Mut => match before_kind {
            BeforeKind::OnlyBefore => Option::None,
            _ => Option::Some(signature_info.method_name.clone()),
        },
        _ => Option::Some(signature_info.method_name.clone()),
    };
    ForwardingClosure {
        class_name: class_name.clone(),
        receiver: signature_info.receiver_type,
        args: clone_strings(&signature_info.param_idents),
        before_call,
        target_call,
    }
}

/// The arity law: the forwarding adapter destructures exactly as many
/// arguments as the signature has value parameters, one per parameter, in
/// declared order.
pub proof fn lemma_forwarding_arity(
    class: Seq<char>,
    sig: SignatureInfo,
    kind: BeforeKind,
    c: ForwardingClosure,
)
    requires
        forwarding_spec(class, sig, kind, c),
        sig.wf(),
    ensures
        c.args@.len() == sig.param_idents@.len(),
        c.args@.len() == sig.param_types@.len(),
        forall|i: int| 0 <= i < c.args@.len() ==> c.args@[i] == sig.param_idents@[i],
{
}

/// The ordering law: when the adapter invokes both the hook and the target
/// method, the hook runs strictly first.
pub proof fn lemma_hook_runs_first(
    class: Seq<char>,
    sig: SignatureInfo,
    kind: BeforeKind,
    c: ForwardingClosure,
)
    requires
        forwarding_spec(class, sig, kind, c),
        c.before_call is Some,
        c.target_call is Some,
    ensures
        call_sequence(c) == seq![before_ident(sig.method_name@), sig.method_name@],
{
    assert(call_sequence(c) =~= seq![before_ident(sig.method_name@), sig.method_name@]);
}

/// Under `OnlyBefore`, the adapter for an instance-reference receiver never
/// invokes the target method symbol: only the hook runs, and the hook's name
/// is never the method's own.
pub proof fn lemma_only_before_omits_target(
    class: Seq<char>,
    sig: SignatureInfo,
    c: ForwardingClosure,
)
    requires
        forwarding_spec(class, sig, BeforeKind::OnlyBefore, c),
        sig.receiver_type == ReceiverType::Ref || sig.receiver_type == ReceiverType::Mut,
    ensures
        c.target_call is None,
        !call_sequence(c).contains(sig.method_name@),
{
    reveal_strlit("__before_");
    assert(before_ident(sig.method_name@).len() == 9 + sig.method_name@.len());
    let cs = call_sequence(c);
    assert forall|i: int| 0 <= i < cs.len() implies cs[i] != sig.method_name@ by {
        assert(cs[i] == before_ident(sig.method_name@));
        assert(cs[i].len() != sig.method_name@.len());
    }
}

} // verus!
