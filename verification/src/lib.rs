//! Method-registration adapter generation for a foreign object system.
//!
//! Given a declarative description of a method (name, receiver kind, ordered
//! parameters, return type, optional rename, optional conditional-compilation
//! predicates), this crate derives the canonical signature, the forwarding
//! adapter shared by both calling conventions, the dynamic (variant) and
//! direct (pointer) entry points, the virtual-dispatch callback, and the
//! registration record handed to the host's class registry.
//!
//! Everything here works on plain values: rendering the derived artifacts
//! into source tokens, and parsing declarations out of source tokens, are the
//! concern of surrounding tooling.

pub mod idents;
pub mod signature;
pub mod forwarding;
pub mod calls;
pub mod registration;
