//! Signature analysis: normalizing a raw method declaration into a canonical
//! signature description, with the receiver kind resolved and every value
//! parameter given an identifier.

use vstd::prelude::*;
use crate::idents::{unnamed_ident, unnamed_param_ident};

verus! {

/// How a declaration names one value parameter: explicitly, or with the
/// ignored placeholder (`_`).
#[derive(Clone, Debug)]
pub enum ParamName {
    Ignored,
    Named(String),
}

/// One parameter of a raw method declaration: either a receiver marker
/// (`self` in some form) or an ordinary typed value parameter. The type of a
/// value parameter is carried as its source text.
#[derive(Clone, Debug)]
pub enum FnParam {
    Receiver { is_ref: bool, is_mut: bool },
    Typed { name: ParamName, ty: String },
}

/// A raw method declaration, as handed over by the surrounding tooling that
/// parses source code: the declared name, the parameters in declaration
/// order (with an optional leading receiver marker), and the optional return
/// type as source text.
#[derive(Clone, Debug)]
pub struct MethodDeclaration {
    pub name: String,
    pub params: Vec<FnParam>,
    pub return_ty: Option<String>,
}

/// The resolved receiver kind of a method.
#[derive(Copy, Clone, Debug, PartialEq, Eq, Structural)]
pub enum ReceiverType {
    /// Shared read access to the instance (`&self`).
    Ref,
    /// Exclusive write access to the instance (`&mut self`).
    Mut,
    /// An owning handle to the instance, passed by value; used when the
    /// method itself declares and manages its own receiver.
    GdSelf,
    /// No instance access.
    Static,
}

/// A fatal, generation-time inconsistency in a declaration. Analysis of the
/// offending method aborts with a diagnostic; other methods are unaffected.
#[derive(Copy, Clone, Debug, PartialEq, Eq, Structural)]
pub enum SignatureError {
    /// An owning-handle receiver was asserted for a declaration that also
    /// carries a receiver marker; the two are mutually exclusive.
    ReceiverMarkerConflict,
    /// The declaration carries a receiver marker in a form that is not
    /// supported (neither a shared nor a mutable reference).
    UnsupportedReceiver,
}

impl SignatureError {
    /// The diagnostic accompanying the aborted generation.
    pub fn message(&self) -> (m: &'static str)
        ensures
            *self == SignatureError::ReceiverMarkerConflict ==> m@
                == "owning-handle receiver cannot coexist with a receiver marker"@,
            *self == SignatureError::UnsupportedReceiver ==> m@ == "receiver form not supported"@,
    {
        match self {
            SignatureError::ReceiverMarkerConflict => {
                "owning-handle receiver cannot coexist with a receiver marker"
            },
            SignatureError::UnsupportedReceiver => "receiver form not supported",
        }
    }
}

/// The canonical description of a method signature, derived once per
/// declaration and never mutated afterwards. Identifiers and types are kept
/// in declaration order, in 1:1 correspondence.
#[derive(Clone, Debug)]
pub struct SignatureInfo {
    pub method_name: String,
    pub receiver_type: ReceiverType,
    pub param_idents: Vec<String>,
    pub param_types: Vec<String>,
    pub ret_type: String,
}

impl SignatureInfo {
    /// Identifiers and types correspond 1:1.
    pub open spec fn wf(&self) -> bool {
        self.param_idents@.len() == self.param_types@.len()
    }

    /// The fixed signature of the `ready` lifecycle method: a mutable
    /// receiver, no value parameters, unit return type.
    pub fn fn_ready() -> (s: Self)
        ensures
            s.method_name@ == "ready"@,
            s.receiver_type == ReceiverType::Mut,
            s.param_idents@ == Seq::<String>::empty(),
            s.param_types@ == Seq::<String>::empty(),
            s.ret_type@ == "()"@,
            s.wf(),
    {
        SignatureInfo {
            method_name: String::from_str("ready"),
            receiver_type: ReceiverType::Mut,
            param_idents: Vec::new(),
            param_types: Vec::new(),
            ret_type: String::from_str("()"),
        }
    }
}

/// Whether a parameter is a receiver marker.
pub open spec fn is_receiver(p: FnParam) -> bool {
    p is Receiver
}

/// A declaration is well formed when a receiver marker, if any, stands first:
/// later positions hold value parameters only.
pub open spec fn leading_receiver_only(params: Seq<FnParam>) -> bool {
    forall|i: int| 1 <= i < params.len() ==> !is_receiver(#[trigger] params[i])
}

/// An owning-handle receiver was asserted, yet the declaration carries a
/// receiver marker of its own: the fatal inconsistency.
pub open spec fn has_receiver_conflict(params: Seq<FnParam>, has_gd_self: bool) -> bool {
    has_gd_self && params.len() > 0 && is_receiver(params[0])
}

/// The declaration's receiver marker is neither a shared nor a mutable
/// reference, so its form is unsupported.
pub open spec fn has_unsupported_receiver(params: Seq<FnParam>, has_gd_self: bool) -> bool {
    !has_gd_self && params.len() > 0 && match params[0] {
        FnParam::Receiver { is_ref, is_mut } => !is_ref && !is_mut,
        FnParam::Typed { .. } => false,
    }
}

/// The receiver kind that analysis resolves for a well-formed declaration.
pub open spec fn receiver_type_of(params: Seq<FnParam>, has_gd_self: bool) -> ReceiverType {
    if has_gd_self {
        ReceiverType::GdSelf
    } else if params.len() > 0 && is_receiver(params[0]) {
        match params[0] {
            FnParam::Receiver { is_ref, is_mut } => if is_mut {
                ReceiverType::Mut
            } else {
                ReceiverType::Ref
            },
            FnParam::Typed { .. } => ReceiverType::Static,
        }
    } else {
        ReceiverType::Static
    }
}

/// The number of value parameters carrying the ignored placeholder.
pub open spec fn count_ignored(params: Seq<FnParam>) -> nat
    decreases params.len(),
{
    if params.len() == 0 {
        0
    } else {
        (match params[0] {
            FnParam::Typed { name: ParamName::Ignored, .. } => 1 as nat,
            _ => 0 as nat,
        }) + count_ignored(params.drop_first())
    }
}

/// The identifier a single parameter contributes, given that `next` unnamed
/// parameters came before it: a receiver marker contributes none, a named
/// parameter its own name, an ignored one the next synthesized identifier.
pub open spec fn ident_contrib(p: FnParam, next: nat) -> Seq<Seq<char>> {
    match p {
        FnParam::Receiver { .. } => Seq::empty(),
        FnParam::Typed { name: ParamName::Named(nm), .. } => seq![nm@],
        FnParam::Typed { name: ParamName::Ignored, .. } => seq![unnamed_ident(next)],
    }
}

/// The identifiers of the value parameters in declaration order, with the
/// unnamed counter starting at `next`.
pub open spec fn idents_from(params: Seq<FnParam>, next: nat) -> Seq<Seq<char>>
    decreases params.len(),
{
    if params.len() == 0 {
        Seq::empty()
    } else {
        ident_contrib(params[0], next) + idents_from(
            params.drop_first(),
            next + count_ignored(params.take(1)),
        )
    }
}

/// The identifiers of a declaration's value parameters, in order: explicit
/// names kept, ignored placeholders synthesized in strict sequential order
/// starting at zero.
pub open spec fn param_idents_of(params: Seq<FnParam>) -> Seq<Seq<char>> {
    idents_from(params, 0)
}

/// The type a single parameter contributes: none for a receiver marker.
pub open spec fn type_contrib(p: FnParam) -> Seq<Seq<char>> {
    match p {
        FnParam::Receiver { .. } => Seq::empty(),
        FnParam::Typed { ty, .. } => seq![ty@],
    }
}

/// The types of the value parameters, in declaration order.
pub open spec fn param_types_of(params: Seq<FnParam>) -> Seq<Seq<char>>
    decreases params.len(),
{
    if params.len() == 0 {
        Seq::empty()
    } else {
        type_contrib(params[0]) + param_types_of(params.drop_first())
    }
}

/// The declared return type, or unit when absent.
pub open spec fn ret_type_of(return_ty: Option<String>) -> Seq<char> {
    match return_ty {
        Option::None => "()"@,
        Option::Some(t) => t@,
    }
}

/// The views of a sequence of strings.
pub open spec fn str_views(s: Seq<String>) -> Seq<Seq<char>> {
    s.map_values(|x: String| x@)
}

/// How the identifiers of a split declaration combine: the suffix starts its
/// unnamed counter where the prefix left off. This is the interleaving law
/// for synthesized identifiers: an unnamed parameter's number is exactly the
/// count of unnamed parameters standing before it, whatever named parameters
/// and receiver markers stand in between.
pub proof fn lemma_idents_from_concat(a: Seq<FnParam>, b: Seq<FnParam>, next: nat)
    ensures
        idents_from(a + b, next) == idents_from(a, next) + idents_from(b, next + count_ignored(a)),
    decreases a.len(),
{
    if a.len() == 0 {
        assert(a + b =~= b);
        assert(count_ignored(a) == 0);
        assert(idents_from(a, next) + idents_from(b, next) =~= idents_from(b, next));
    } else {
        assert((a + b).drop_first() =~= a.drop_first() + b);
        assert((a + b)[0] == a[0]);
        assert((a + b).take(1) =~= a.take(1));
        let k = count_ignored(a.take(1));
        lemma_idents_from_concat(a.drop_first(), b, next + k);
        lemma_count_ignored_concat(a.drop_first(), b);
        lemma_count_first(a);
        assert(ident_contrib(a[0], next) + (idents_from(a.drop_first(), next + k) + idents_from(
            b,
            next + k + count_ignored(a.drop_first()),
        )) =~= (ident_contrib(a[0], next) + idents_from(a.drop_first(), next + k)) + idents_from(
            b,
            next + count_ignored(a),
        ));
    }
}

/// The ignored-parameter count of a prefix and a suffix add up.
pub proof fn lemma_count_ignored_concat(a: Seq<FnParam>, b: Seq<FnParam>)
    ensures
        count_ignored(a + b) == count_ignored(a) + count_ignored(b),
    decreases a.len(),
{
    if a.len() == 0 {
        assert(a + b =~= b);
    } else {
        assert((a + b).drop_first() =~= a.drop_first() + b);
        assert((a + b)[0] == a[0]);
        lemma_count_ignored_concat(a.drop_first(), b);
    }
}

/// Splitting off the first parameter splits the ignored count.
proof fn lemma_count_first(a: Seq<FnParam>)
    requires
        a.len() > 0,
    ensures
        count_ignored(a) == count_ignored(a.take(1)) + count_ignored(a.drop_first()),
{
    assert(a =~= a.take(1) + a.drop_first());
    lemma_count_ignored_concat(a.take(1), a.drop_first());
}

/// The types of a split declaration combine by concatenation.
pub proof fn lemma_types_concat(a: Seq<FnParam>, b: Seq<FnParam>)
    ensures
        param_types_of(a + b) == param_types_of(a) + param_types_of(b),
    decreases a.len(),
{
    if a.len() == 0 {
        assert(a + b =~= b);
        assert(param_types_of(a) + param_types_of(b) =~= param_types_of(b));
    } else {
        assert((a + b).drop_first() =~= a.drop_first() + b);
        assert((a + b)[0] == a[0]);
        lemma_types_concat(a.drop_first(), b);
        assert(type_contrib(a[0]) + (param_types_of(a.drop_first()) + param_types_of(b))
            =~= (type_contrib(a[0]) + param_types_of(a.drop_first())) + param_types_of(b));
    }
}

/// A one-parameter declaration contributes exactly that parameter's
/// identifier.
pub proof fn lemma_idents_from_singleton(p: FnParam, next: nat)
    ensures
        idents_from(seq![p], next) == ident_contrib(p, next),
{
    let s = seq![p];
    assert(s.drop_first() =~= Seq::<FnParam>::empty());
    assert(idents_from(s.drop_first(), next + count_ignored(s.take(1))) =~= Seq::<
        Seq<char>,
    >::empty());
    assert(idents_from(s, next) =~= ident_contrib(p, next) + Seq::<Seq<char>>::empty());
    assert(ident_contrib(p, next) + Seq::<Seq<char>>::empty() =~= ident_contrib(p, next));
}

/// A one-parameter declaration contributes exactly that parameter's type.
pub proof fn lemma_types_singleton(p: FnParam)
    ensures
        param_types_of(seq![p]) == type_contrib(p),
{
    let s = seq![p];
    assert(s.drop_first() =~= Seq::<FnParam>::empty());
    assert(param_types_of(s.drop_first()) =~= Seq::<Seq<char>>::empty());
    assert(param_types_of(s) =~= type_contrib(p) + Seq::<Seq<char>>::empty());
    assert(type_contrib(p) + Seq::<Seq<char>>::empty() =~= type_contrib(p));
}

/// The ignored count of a one-parameter declaration.
pub proof fn lemma_count_ignored_singleton(p: FnParam)
    ensures
        count_ignored(seq![p]) == (match p {
            FnParam::Typed { name: ParamName::Ignored, .. } => 1 as nat,
            _ => 0 as nat,
        }),
{
    let s = seq![p];
    assert(s.drop_first() =~= Seq::<FnParam>::empty());
    assert(count_ignored(s.drop_first()) == 0);
}

/// Asserting an owning-handle receiver for a declaration that carries its
/// own receiver marker is an inconsistency for every combination of the
/// marker's reference and mutability tokens.
pub proof fn lemma_owning_handle_conflict(params: Seq<FnParam>, is_ref: bool, is_mut: bool)
    requires
        params.len() > 0,
        params[0] == (FnParam::Receiver { is_ref, is_mut }),
    ensures
        has_receiver_conflict(params, true),
{
}

/// Analyzes a raw declaration: resolves the receiver kind, synthesizes
/// identifiers for unnamed value parameters in strict declaration order, and
/// copies the parameter types and the (defaulted) return type.
///
/// Fails, and only fails, on the two documented fatal inconsistencies:
/// asserting an owning-handle receiver alongside a declared receiver marker,
/// and a receiver marker of unsupported form.
pub fn get_signature_info(signature: &MethodDeclaration, has_gd_self: bool) -> (r: Result<
    SignatureInfo,
    SignatureError,
>)
    requires
        leading_receiver_only(signature.params@),
    ensures
        r is Err <==> (has_receiver_conflict(signature.params@, has_gd_self)
            || has_unsupported_receiver(signature.params@, has_gd_self)),
        has_receiver_conflict(signature.params@, has_gd_self) ==> r == Result::<
            SignatureInfo,
            SignatureError,
        >::Err(SignatureError::ReceiverMarkerConflict),
        has_unsupported_receiver(signature.params@, has_gd_self) ==> r == Result::<
            SignatureInfo,
            SignatureError,
        >::Err(SignatureError::UnsupportedReceiver),
        r matches Ok(s) ==> {
            &&& s.method_name@ == signature.name@
            &&& s.receiver_type == receiver_type_of(signature.params@, has_gd_self)
            &&& str_views(s.param_idents@) == param_idents_of(signature.params@)
            &&& str_views(s.param_types@) == param_types_of(signature.params@)
            &&& s.ret_type@ == ret_type_of(signature.return_ty)
            &&& s.wf()
        },
{
    let method_name = signature.name.clone();
    let mut receiver_type = if has_gd_self {
        ReceiverType::GdSelf
    } else {
        ReceiverType::Static
    };
    let mut param_idents: Vec<String> = Vec::new();
    let mut param_types: Vec<String> = Vec::new();
    let ret_type: String = match &signature.return_ty {
        Option::None => String::from_str("()"),
        Option::Some(t) => t.clone(),
    };

    let mut next_unnamed_index: usize = 0;
    let n = signature.params.len();
    let mut i: usize = 0;
    while i < n
        invariant
            n == signature.params@.len(),
            i <= n,
            leading_receiver_only(signature.params@),
            next_unnamed_index as nat == count_ignored(signature.params@.take(i as int)),
            next_unnamed_index <= i,
            str_views(param_idents@) == idents_from(signature.params@.take(i as int), 0),
            str_views(param_types@) == param_types_of(signature.params@.take(i as int)),
            receiver_type == receiver_type_of(signature.params@.take(i as int), has_gd_self),
            !has_receiver_conflict(signature.params@.take(i as int), has_gd_self),
            !has_unsupported_receiver(signature.params@.take(i as int), has_gd_self),
            param_idents@.len() == param_types@.len(),
        decreases n - i,
    {
        let ghost prefix = signature.params@.take(i as int);
        let ghost longer = signature.params@.take(i as int + 1);
        proof {
            assert(longer =~= prefix + seq![signature.params@[i as int]]);
        }
        match &signature.params[i] {
            FnParam::Receiver { is_ref, is_mut } => {
                if has_gd_self {
                    proof {
                        assert(i == 0) by {
                            if i > 0 {
                                assert(!is_receiver(signature.params@[i as int]));
                            }
                        }
                    }
                    return Err(SignatureError::ReceiverMarkerConflict);
                }
                if *is_mut {
                    receiver_type = ReceiverType::Mut;
                } else if *is_ref {
                    receiver_type = ReceiverType::Ref;
                } else {
                    proof {
                        assert(i == 0) by {
                            if i > 0 {
                                assert(!is_receiver(signature.params@[i as int]));
                            }
                        }
                    }
                    return Err(SignatureError::UnsupportedReceiver);
                }
                proof {
                    assert(i == 0) by {
                        if i > 0 {
                            assert(!is_receiver(signature.params@[i as int]));
                        }
                    }
                    let p = signature.params@[i as int];
                    lemma_idents_from_concat(prefix, seq![p], 0);
                    lemma_types_concat(prefix, seq![p]);
                    lemma_count_ignored_concat(prefix, seq![p]);
                    lemma_idents_from_singleton(p, count_ignored(prefix));
                    lemma_types_singleton(p);
                    lemma_count_ignored_singleton(p);
                    assert(str_views(param_idents@) =~= idents_from(longer, 0));
                    assert(str_views(param_types@) =~= param_types_of(longer));
                    assert(longer[0] == signature.params@[0]);
                }
            },
            FnParam::Typed { name, ty } => {
                let ident: String = match name {
                    ParamName::Named(s) => s.clone(),
                    ParamName::Ignored => {
                        let id = unnamed_param_ident(next_unnamed_index);
                        next_unnamed_index = next_unnamed_index + 1;
                        id
                    },
                };
                let ghost old_idents = param_idents@;
                let ghost old_types = param_types@;
                param_types.push(ty.clone());
                param_idents.push(ident);
                proof {
                    let p = signature.params@[i as int];
                    lemma_idents_from_concat(prefix, seq![p], 0);
                    lemma_types_concat(prefix, seq![p]);
                    lemma_count_ignored_concat(prefix, seq![p]);
                    lemma_idents_from_singleton(p, count_ignored(prefix));
                    lemma_types_singleton(p);
                    lemma_count_ignored_singleton(p);
                    assert(param_idents@ == old_idents.push(ident));
                    assert(param_types@ == old_types.push(*ty));
                    assert(str_views(old_idents.push(ident)) =~= str_views(old_idents).push(
                        ident@,
                    ));
                    assert(str_views(old_types.push(*ty)) =~= str_views(old_types).push(ty@));
                    assert(str_views(param_idents@) =~= idents_from(longer, 0));
                    assert(str_views(param_types@) =~= param_types_of(longer));
                    assert(receiver_type_of(longer, has_gd_self) == receiver_type_of(
                        prefix,
                        has_gd_self,
                    )) by {
                        if prefix.len() > 0 {
                            assert(longer[0] == prefix[0]);
                        }
                    }
                }
            },
        }
        i = i + 1;
    }
    proof {
        assert(signature.params@.take(n as int) =~= signature.params@);
    }
    Ok(
        SignatureInfo {
            method_name,
            receiver_type,
            param_idents,
            param_types,
            ret_type,
        },
    )
}

} // verus!
