//! Compiles one annotated function declaration, together with a small set of
//! configuration directives, into the bundle of artifacts through which the
//! function can later be run as a deferred command against a shared world:
//! a data type that stores the captured arguments, the behaviour that applies
//! it, an extension trait for issuing it, and, where result handlers are
//! configured, a wrapper that routes the function's outcome to them.
//!
//! The input arrives already parsed, as plain values ([`FunctionSpec`] and
//! [`Config`]); the output is a structured [`ArtifactSet`] that [`render`]
//! writes out as source text. Every decision in between is verified, and
//! the module `laws` states what holds of every generation.

pub mod model;
pub mod error;
pub mod text;
pub mod classify;
pub mod naming;
pub mod artifact;
pub mod assemble;
pub mod emit;
pub mod laws;

pub use crate::artifact::{
    ArtifactSet, BehaviorBody, BehaviorImpl, DataTypeDecl, ExtensionBody, ExtensionImpl,
    ExtensionTarget, Forwarded, FunctionBody, FunctionDecl, Outcome, ResultRouting, SystemInput,
    WorldParameter,
};
pub use crate::assemble::{assemble, commandify};
pub use crate::classify::{classify_fields, second_subject_position, ClassifiedFields};
pub use crate::emit::{generate, render};
pub use crate::error::ValidationError;
pub use crate::model::{
    Config, ExecutionStyle, FunctionSpec, GenericKind, GenericParam, Parameter, ReturnType, Scope,
};
pub use crate::naming::{derive_names, resolve_names, ResolvedNames};
