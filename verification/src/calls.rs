//! The two foreign-callable entry points generated per registered method:
//! the dynamic (variant) adapter and the direct (pointer) adapter. Both wrap
//! the forwarding adapter and both are panic-isolated: no failure raised
//! inside the hook or target method ever crosses the foreign-call boundary
//! as an unwind. The observable boundary behavior of one invocation is
//! modeled here as well, over every outcome the wrapped call can have.

use vstd::prelude::*;
use crate::forwarding::ForwardingClosure;

verus! {

/// The signature tuple of a method: the return type followed by the
/// parameter types, the compile-time key under which both calling
/// conventions marshal arguments and result.
#[derive(Clone, Debug)]
pub struct SigTuple {
    pub ret_type: String,
    pub param_types: Vec<String>,
}

/// The calling-convention kind tag of a direct (pointer) call, fixed at
/// generation time.
#[derive(Copy, Clone, Debug, PartialEq, Eq, Structural)]
pub enum PtrcallType {
    /// An ordinary direct call.
    Standard,
    /// A call made through virtual dispatch, which has no error-reporting
    /// path back to the caller at all.
    Virtual,
}

/// The dynamic call expression: converts each dynamically typed argument
/// handle to its native parameter type per the signature tuple, invokes the
/// forwarding adapter, and writes the converted native result into the
/// dynamic return slot.
#[derive(Clone, Debug)]
pub struct VarcallInvocation {
    pub method_name: String,
    pub sig_tuple: SigTuple,
    pub wrapped_method: ForwardingClosure,
}

/// The direct call expression: marshals each raw argument buffer into its
/// native parameter type using the compile-time layout from the signature
/// tuple, invokes the forwarding adapter, and marshals the result into the
/// raw return buffer.
#[derive(Clone, Debug)]
pub struct PtrcallInvocation {
    pub method_name: String,
    pub sig_tuple: SigTuple,
    pub wrapped_method: ForwardingClosure,
    pub call_type: PtrcallType,
}

/// The dynamic (variant) entry point: the invocation, panic-isolated, with
/// the method name available to the isolation wrapper for diagnostics
/// whether or not the call succeeds.
#[derive(Clone, Debug)]
pub struct VarcallFunc {
    pub panic_context: String,
    pub invocation: VarcallInvocation,
}

/// The direct (pointer) entry point: the invocation, panic-isolated, with
/// the method name available to the isolation wrapper for diagnostics
/// whether or not the call succeeds.
#[derive(Clone, Debug)]
pub struct PtrcallFunc {
    pub panic_context: String,
    pub invocation: PtrcallInvocation,
}

/// Two signature tuples describe the same signature.
pub open spec fn same_sig_tuple(a: SigTuple, b: SigTuple) -> bool {
    &&& a.ret_type == b.ret_type
    &&& a.param_types@ == b.param_types@
}

/// Two forwarding adapter descriptions are the same.
pub open spec fn same_forwarding(a: ForwardingClosure, b: ForwardingClosure) -> bool {
    &&& a.class_name == b.class_name
    &&& a.receiver == b.receiver
    &&& a.args@ == b.args@
    &&& a.before_call == b.before_call
    &&& a.target_call == b.target_call
}

/// Copies a signature tuple.
pub fn clone_sig_tuple(t: &SigTuple) -> (r: SigTuple)
    ensures
        same_sig_tuple(r, *t),
{
    SigTuple { ret_type: t.ret_type.clone(), param_types: crate::forwarding::clone_strings(
        &t.param_types,
    ) }
}

/// Copies a forwarding adapter description.
pub fn clone_forwarding(c: &ForwardingClosure) -> (r: ForwardingClosure)
    ensures
        same_forwarding(r, *c),
{
    let before_call: Option<String> = match &c.before_call {
        Option::Some(h) => Option::Some(h.clone()),
        Option::None => Option::None,
    };
    let target_call: Option<String> = match &c.target_call {
        Option::Some(t) => Option::Some(t.clone()),
        Option::None => Option::None,
    };
    ForwardingClosure {
        class_name: c.class_name.clone(),
        receiver: c.receiver,
        args: crate::forwarding::clone_strings(&c.args),
        before_call,
        target_call,
    }
}

/// Assembles the signature tuple from the canonical return and parameter
/// types.
pub fn make_signature_tuple_type(ret_type: &String, param_types: &Vec<String>) -> (t: SigTuple)
    ensures
        t.ret_type == *ret_type,
        t.param_types@ == param_types@,
{
    SigTuple {
        ret_type: ret_type.clone(),
        param_types: crate::forwarding::clone_strings(param_types),
    }
}

/// Builds the dynamic call expression for `wrapped_method`.
pub fn make_varcall_invocation(
    method_name: &String,
    sig_tuple: &SigTuple,
    wrapped_method: &ForwardingClosure,
) -> (v: VarcallInvocation)
    ensures
        v.method_name == *method_name,
        same_sig_tuple(v.sig_tuple, *sig_tuple),
        same_forwarding(v.wrapped_method, *wrapped_method),
{
    VarcallInvocation {
        method_name: method_name.clone(),
        sig_tuple: clone_sig_tuple(sig_tuple),
        wrapped_method: clone_forwarding(wrapped_method),
    }
}

/// Builds the direct call expression for `wrapped_method`, tagged `Virtual`
/// when it will serve virtual dispatch and `Standard` otherwise.
pub fn make_ptrcall_invocation(
    method_name: &String,
    sig_tuple: &SigTuple,
    wrapped_method: &ForwardingClosure,
    is_virtual: bool,
) -> (v: PtrcallInvocation)
    ensures
        v.method_name == *method_name,
        same_sig_tuple(v.sig_tuple, *sig_tuple),
        same_forwarding(v.wrapped_method, *wrapped_method),
        v.call_type == (if is_virtual {
            PtrcallType::Virtual
        } else {
            PtrcallType::Standard
        }),
{
    PtrcallInvocation {
        method_name: method_name.clone(),
        sig_tuple: clone_sig_tuple(sig_tuple),
        wrapped_method: clone_forwarding(wrapped_method),
        call_type: if is_virtual {
            PtrcallType::Virtual
        } else {
            PtrcallType::Standard
        },
    }
}

/// Builds the dynamic (variant) entry point: the invocation under panic
/// isolation, with the method name as the isolation wrapper's diagnostic
/// context.
pub fn make_varcall_func(
    method_name: &String,
    sig_tuple: &SigTuple,
    wrapped_method: &ForwardingClosure,
) -> (f: VarcallFunc)
    ensures
        f.panic_context == *method_name,
        f.invocation.method_name == *method_name,
        same_sig_tuple(f.invocation.sig_tuple, *sig_tuple),
        same_forwarding(f.invocation.wrapped_method, *wrapped_method),
{
    VarcallFunc {
        panic_context: method_name.clone(),
        invocation: make_varcall_invocation(method_name, sig_tuple, wrapped_method),
    }
}

/// Builds the direct (pointer) entry point for the standard calling
/// convention: the invocation under panic isolation, with the method name as
/// the isolation wrapper's diagnostic context.
pub fn make_ptrcall_func(
    method_name: &String,
    sig_tuple: &SigTuple,
    wrapped_method: &ForwardingClosure,
) -> (f: PtrcallFunc)
    ensures
        f.panic_context == *method_name,
        f.invocation.method_name == *method_name,
        same_sig_tuple(f.invocation.sig_tuple, *sig_tuple),
        same_forwarding(f.invocation.wrapped_method, *wrapped_method),
        f.invocation.call_type == PtrcallType::Standard,
{
    PtrcallFunc {
        panic_context: method_name.clone(),
        invocation: make_ptrcall_invocation(method_name, sig_tuple, wrapped_method, false),
    }
}

/// What one invocation of the wrapped dynamic call did, as observed at the
/// isolation boundary. Which case occurs is decided outside this core, by
/// the dynamic-value conversion subsystem and by the hook and target bodies.
#[derive(Copy, Clone, Debug, PartialEq, Eq, Structural)]
pub enum VarcallEvent {
    /// Some argument handle could not be converted to its expected native
    /// parameter type; the target method was never invoked.
    ConversionFailed,
    /// The hook or target method raised a panic, caught at the boundary.
    Panicked,
    /// Conversion, call and result write-back all completed.
    Completed,
}

/// The state the dynamic return slot is left in. It is never left undefined.
#[derive(Copy, Clone, Debug, PartialEq, Eq, Structural)]
pub enum VariantSlot {
    /// The safe nil value.
    Nil,
    /// The converted native result of the call.
    Value,
}

/// The sentinel written to the error-code slot on failure.
#[derive(Copy, Clone, Debug, PartialEq, Eq, Structural)]
pub enum CallErrorCode {
    InvalidMethod,
}

/// What one invocation of the dynamic entry point leaves in its two output
/// slots, and whether the wrapped call was reached at all.
#[derive(Copy, Clone, Debug, PartialEq, Eq, Structural)]
pub struct VarcallOutcome {
    pub return_slot: VariantSlot,
    pub error_slot: Option<CallErrorCode>,
    /// Whether the forwarding adapter (and with it the hook and target
    /// method) was invoked: a conversion failure stops the call before it.
    pub target_reached: bool,
}

/// The boundary behavior of the dynamic entry point, for every outcome of
/// the wrapped call: on success the converted result is written and no error
/// is signaled; on any failure — conversion failure or a panic caught at
/// this boundary — the error slot receives the invalid-method sentinel and
/// the return slot the safe nil value. The function is total: no unwind is
/// observable outside the adapter.
pub fn varcall_boundary(func: &VarcallFunc, event: VarcallEvent) -> (r: VarcallOutcome)
    ensures
        event == VarcallEvent::Completed ==> r.return_slot == VariantSlot::Value && r.error_slot
            is None,
        event != VarcallEvent::Completed ==> r.return_slot == VariantSlot::Nil && r.error_slot
            == Option::Some(CallErrorCode::InvalidMethod),
        r.target_reached == (event != VarcallEvent::ConversionFailed),
{
    match event {
        VarcallEvent::Completed => VarcallOutcome {
            return_slot: VariantSlot::Value,
            error_slot: Option::None,
            target_reached: true,
        },
        VarcallEvent::Panicked => VarcallOutcome {
            return_slot: VariantSlot::Nil,
            error_slot: Option::Some(CallErrorCode::InvalidMethod),
            target_reached: true,
        },
        VarcallEvent::ConversionFailed => VarcallOutcome {
            return_slot: VariantSlot::Nil,
            error_slot: Option::Some(CallErrorCode::InvalidMethod),
            target_reached: false,
        },
    }
}

/// What one invocation of the wrapped direct call did, as observed at the
/// isolation boundary.
#[derive(Copy, Clone, Debug, PartialEq, Eq, Structural)]
pub enum CallOutcome {
    /// The call and the result marshaling completed.
    Completed,
    /// The hook or target method raised a panic, caught at the boundary.
    Panicked,
}

/// The state the raw return buffer is left in. It is never left undefined.
#[derive(Copy, Clone, Debug, PartialEq, Eq, Structural)]
pub enum PtrSlot {
    /// The marshaled native result of the call.
    Written,
    /// The defined default state the buffer is reset to when the call fails;
    /// the failure itself is surfaced only through out-of-band diagnostics.
    DefaultState,
}

/// What one invocation of the direct entry point leaves in its return
/// buffer. A direct call has no error-code output at all.
#[derive(Copy, Clone, Debug, PartialEq, Eq, Structural)]
pub struct PtrcallOutcome {
    pub return_slot: PtrSlot,
}

/// The boundary behavior of the direct entry point, for every outcome of
/// the wrapped call and under both calling-convention kinds alike: on
/// success the marshaled result is written; on a caught panic the return
/// buffer is left in its defined default state, since neither kind has an
/// error channel — under `Virtual` there is no reporting path back to the
/// caller at all. The function is total: no unwind is observable outside
/// the adapter.
pub fn ptrcall_boundary(func: &PtrcallFunc, event: CallOutcome) -> (r: PtrcallOutcome)
    ensures
        event == CallOutcome::Completed ==> r.return_slot == PtrSlot::Written,
        event == CallOutcome::Panicked ==> r.return_slot == PtrSlot::DefaultState,
{
    match event {
        CallOutcome::Completed => PtrcallOutcome { return_slot: PtrSlot::Written },
        CallOutcome::Panicked => PtrcallOutcome { return_slot: PtrSlot::DefaultState },
    }
}

} // verus!
