//! Generation of a `check_initial_state` method for builder-like records: the
//! method checks that every field not marked `ignore_field` is still `None`.
//!
//! The input is a parsed declaration ([`declaration::Declaration`]). It is
//! classified, its checked fields are selected, its generic signature is
//! rebuilt for the impl header, and the method is emitted as a
//! [`emit::CheckMethod`], which can be written out as Rust source or run on a
//! model of an instance.
pub mod classify;
pub mod declaration;
pub mod diagnostic;
pub mod emit;
pub mod generics;
pub mod laws;
pub mod render;
pub mod select;

pub use declaration::{Data, Declaration, FieldDecl, Fields, GenericParam, Generics};
pub use diagnostic::{Diagnostic, DiagnosticKind, DiagnosticSpan};
pub use emit::{check_initial_state_derive, CheckMethod, FieldCheck};
