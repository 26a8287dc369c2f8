//! # `constant`: constant, compile-time default values
//!
//! A trait method cannot be called where a constant is evaluated, so
//! `Default::default()` is of no use in a `const` or a `static`. This crate
//! works around that limit. For a struct it derives an inherent
//! `const fn default()`, built from the constant defaults of the struct's
//! fields, and beside it an implementation of [`Default`] and one of
//! [`Constdef`] that both go back to that function.
//!
//! [`assembly::derive`] is the whole derivation: from a [`TypeDeclaration`]
//! to the text of the three code units, or to the one [`GenerationError`]
//! that refuses the declaration. It works in three steps, each of them
//! public: [`get_struct_field_names`] lists the fields, [`type_shape`]
//! finds the shape of each field's type, and [`shape_expr`] writes the
//! expression for a shape.

pub mod assembly;
pub mod codegen;
pub mod constdef;
pub mod error;
pub mod fields;
pub mod laws;
pub mod model;
pub mod shape;
pub mod span;
pub mod syntax;
pub mod text;

pub use crate::assembly::{generate_named, generate_unnamed};
pub use crate::codegen::{
    generate_field_expr, process_array, recursive_process_tuple, shape_expr, GeneratedFragment,
};
pub use crate::constdef::Constdef;
pub use crate::error::GenerationError;
pub use crate::fields::{get_struct_field_names, FieldInfo, NamedFieldInfo, UnnamedFieldInfo};
pub use crate::shape::{type_shape, TypeShape};
pub use crate::span::Span;
pub use crate::syntax::{
    Data, Fields, Generics, NamedField, TypeDeclaration, TypeExpr, TypeForm, TypeKind,
    UnnamedField,
};
