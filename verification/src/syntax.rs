use vstd::prelude::*;
use vstd::string::*;

use crate::span::Span;

verus! {

/// The syntactic forms of a type that the derivation tells apart but does
/// not look into.
#[derive(Clone, Copy, Debug, PartialEq, Eq, Structural)]
pub enum TypeForm {
    /// `&T` or `&mut T`.
    Reference,
    /// `[T]`.
    Slice,
    /// `*const T` or `*mut T`.
    Pointer,
    /// `fn(A) -> B`.
    BareFn,
    /// `dyn Trait`.
    TraitObject,
    /// `impl Trait`.
    ImplTrait,
    /// `!`.
    Never,
    /// `_`.
    Infer,
    /// `(T)`.
    Paren,
    /// A type inside invisible delimiters.
    Group,
    /// A macro in type position.
    Macro,
    /// Tokens in type position that were not read as any of the forms
    /// above.
    Verbatim,
}

/// What a type expression is made of.
#[derive(Debug, PartialEq, Eq)]
pub enum TypeKind {
    /// A named type, possibly generic, such as `u64`, `String` or `Vec<T>`;
    /// `text` is the type as it is written.
    Path { text: String },
    /// `[elem; len]`. `len` is the length where it is written as an integer
    /// literal that fits, and `None` for any other constant expression.
    Array { elem: Box<TypeExpr>, len: Option<u64> },
    /// `(T0, T1, ..)`, with its element types in order.
    Tuple { elems: Vec<TypeExpr> },
    /// Any other form.
    Other { form: TypeForm },
}

/// A type as a field declares it, with the place where it is written.
#[derive(Debug, PartialEq, Eq)]
pub struct TypeExpr {
    pub kind: TypeKind,
    pub span: Span,
}

/// A field of a struct with named fields.
#[derive(Debug, PartialEq, Eq)]
pub struct NamedField {
    pub name: String,
    pub ty: TypeExpr,
    /// The attributes on the field, carried along and never interpreted.
    pub attrs: Vec<String>,
}

/// A field of a tuple struct.
#[derive(Debug, PartialEq, Eq)]
pub struct UnnamedField {
    pub ty: TypeExpr,
    /// The attributes on the field, carried along and never interpreted.
    pub attrs: Vec<String>,
}

/// The fields of a struct, as the three ways of writing one give them.
#[derive(Debug, PartialEq, Eq)]
pub enum Fields {
    /// `struct S { a: A, b: B }`.
    Named(Vec<NamedField>),
    /// `struct S(A, B);`.
    Unnamed(Vec<UnnamedField>),
    /// `struct S;`.
    Unit,
}

/// The body of a declaration.
#[derive(Debug, PartialEq, Eq)]
pub enum Data {
    /// A struct, with its fields.
    Struct(Fields),
    /// An enum; its variants are of no interest here.
    Enum,
    /// A union; its fields are of no interest here.
    Union,
}

/// The generic parameters of a declaration, split into the three pieces
/// that an `impl` header is written with.
#[derive(Debug, PartialEq, Eq)]
pub struct Generics {
    /// What follows `impl`: the parameters with their bounds, in angle
    /// brackets, or nothing.
    pub impl_generics: String,
    /// What follows the type's name: the parameters alone, in angle
    /// brackets, or nothing.
    pub type_generics: String,
    /// The `where` clause, or nothing.
    pub where_clause: String,
}

/// A type declaration for which a constant default is asked.
#[derive(Debug, PartialEq, Eq)]
pub struct TypeDeclaration {
    pub name: String,
    pub generics: Generics,
    pub data: Data,
    /// The place of the whole declaration.
    pub span: Span,
}

impl TypeExpr {
    /// The named type that is written `text`, at `span`.
    pub fn path(text: &str, span: Span) -> (ty: TypeExpr)
        ensures
            ty.kind matches TypeKind::Path { text: written } && written@ == text@,
            ty.span == span,
    {
        TypeExpr { kind: TypeKind::Path { text: String::from_str(text) }, span }
    }

    /// The array type `[elem; len]`, at `span`; `len` is `None` where the
    /// length is not written as an integer literal.
    pub fn array(elem: TypeExpr, len: Option<u64>, span: Span) -> (ty: TypeExpr)
        ensures
            ty == (TypeExpr { kind: TypeKind::Array { elem: Box::new(elem), len }, span }),
    {
        TypeExpr { kind: TypeKind::Array { elem: Box::new(elem), len }, span }
    }

    /// The tuple type of the element types `elems`, at `span`.
    pub fn tuple(elems: Vec<TypeExpr>, span: Span) -> (ty: TypeExpr)
        ensures
            ty == (TypeExpr { kind: TypeKind::Tuple { elems }, span }),
    {
        TypeExpr { kind: TypeKind::Tuple { elems }, span }
    }

    /// A type of the form `form`, at `span`.
    pub fn other(form: TypeForm, span: Span) -> (ty: TypeExpr)
        ensures
            ty == (TypeExpr { kind: TypeKind::Other { form }, span }),
    {
        TypeExpr { kind: TypeKind::Other { form }, span }
    }
}

impl NamedField {
    /// The field `name: ty`, without attributes.
    pub fn new(name: &str, ty: TypeExpr) -> (field: NamedField)
        ensures
            field.name@ == name@,
            field.ty == ty,
            field.attrs@.len() == 0,
    {
        NamedField { name: String::from_str(name), ty, attrs: Vec::new() }
    }
}

impl UnnamedField {
    /// The positional field of type `ty`, without attributes.
    pub fn new(ty: TypeExpr) -> (field: UnnamedField)
        ensures
            field.ty == ty,
            field.attrs@.len() == 0,
    {
        UnnamedField { ty, attrs: Vec::new() }
    }
}

impl Generics {
    /// The generics of a declaration without parameters: three empty
    /// pieces.
    pub fn none() -> (generics: Generics)
        ensures
            generics.impl_generics@.len() == 0,
            generics.type_generics@.len() == 0,
            generics.where_clause@.len() == 0,
    {
        Generics {
            impl_generics: String::new(),
            type_generics: String::new(),
            where_clause: String::new(),
        }
    }

    /// The generics that are written `impl_generics` after `impl`,
    /// `type_generics` after the type's name, and `where_clause` after
    /// both.
    pub fn new(impl_generics: &str, type_generics: &str, where_clause: &str) -> (generics:
        Generics)
        ensures
            generics.impl_generics@ == impl_generics@,
            generics.type_generics@ == type_generics@,
            generics.where_clause@ == where_clause@,
    {
        Generics {
            impl_generics: String::from_str(impl_generics),
            type_generics: String::from_str(type_generics),
            where_clause: String::from_str(where_clause),
        }
    }
}

impl TypeDeclaration {
    /// The declaration of the type `name` with the body `data`, at `span`.
    pub fn new(name: &str, generics: Generics, data: Data, span: Span) -> (decl: TypeDeclaration)
        ensures
            decl.name@ == name@,
            decl.generics == generics,
            decl.data == data,
            decl.span == span,
    {
        TypeDeclaration { name: String::from_str(name), generics, data, span }
    }
}

} // verus!
