//! Derivation engine for two member operations on aggregate type
//! declarations.
//!
//! Given the syntactic description of a type declaration (see [`ast::Decl`]),
//! the engine emits host source text, as a sequence of tokens, for:
//!
//! - `destructure`: a member operation that consumes an instance by value and
//!   returns its fields bundled as a tuple, in declaration order, without
//!   running the type's user-defined cleanup routine;
//! - `remove_trait_impls`: an auxiliary type declaration that is structurally
//!   identical to the input but carries no trait implementations, together
//!   with a member operation that moves an instance into that auxiliary type.
//!
//! Both operations work by placing the consumed instance into a cell whose
//! own drop runs no cleanup, and reading each field bit for bit out of that
//! cell, exactly once, in declaration order.

pub mod ast;
pub mod classify;
pub mod destructure;
pub mod error;
pub mod fragments;
pub mod laws;
pub mod numeral;
pub mod remove_impls;
pub mod token;

pub use ast::{Data, Decl, FieldList, GenericParam, Generics, NamedField, ParamKind, UnnamedField,
    Variant};
pub use classify::{classify, Shape};
pub use destructure::derive_destructure;
pub use error::DeriveError;
pub use remove_impls::derive_remove_trait_impls;
pub use token::{render_source, Token};
