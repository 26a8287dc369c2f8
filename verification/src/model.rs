use vstd::prelude::*;

use crate::span::Span;
use crate::syntax::{
    Data,
    Fields,
    Generics,
    NamedField,
    TypeDeclaration,
    TypeExpr,
    TypeKind,
    UnnamedField,
};

verus! {

/// The shape of a type, as a mathematical value: what the derivation reads
/// of a declared type, and nothing else.
pub enum Shape {
    /// A named type; `ty` is the type as it is written.
    Path { ty: Seq<char> },
    /// An array of `len` elements of one shape.
    Array { elem: Box<Shape>, len: nat },
    /// A tuple, with the shapes of its elements in order.
    Tuple { elems: Seq<Shape> },
    /// A form that has no constant default; `span` is where it is written.
    Unsupported { span: Span },
}

/// What the derivation reads of a named field: its name and the shape of
/// its declared type.
pub struct NamedFieldModel {
    pub name: Seq<char>,
    pub shape: Shape,
}

/// What the derivation reads of the body of a declaration.
pub enum FieldsModel {
    /// A struct whose constructor sets its fields by name, with the fields
    /// in declaration order.
    Named(Seq<NamedFieldModel>),
    /// A struct whose constructor sets its fields by position, with the
    /// shapes of the fields in declaration order.
    Unnamed(Seq<Shape>),
    /// Not a struct.
    Unsupported,
}

/// The three pieces of the generic parameters, as sequences of characters.
pub struct GenericsModel {
    pub impl_generics: Seq<char>,
    pub type_generics: Seq<char>,
    pub where_clause: Seq<char>,
}

/// What the derivation reads of a declaration.
pub struct DeclarationModel {
    pub name: Seq<char>,
    pub generics: GenericsModel,
    pub fields: FieldsModel,
    /// The place of the whole declaration.
    pub span: Span,
}

/// The shape that a type expression has.
///
/// A path is a path, whatever it names. An array has a shape of its own
/// only where its length is known; a tuple always has. Every other form,
/// and an array whose length is not a literal, is unsupported at the place
/// where it is written.
pub open spec fn shape_of(ty: TypeExpr) -> Shape
    decreases ty, 0nat,
{
    match ty.kind {
        TypeKind::Path { text } => Shape::Path { ty: text@ },
        TypeKind::Array { elem, len } => match len {
            Some(n) => Shape::Array { elem: Box::new(shape_of(*elem)), len: n as nat },
            None => Shape::Unsupported { span: ty.span },
        },
        TypeKind::Tuple { elems } => Shape::Tuple { elems: shapes_of(elems@) },
        TypeKind::Other { .. } => Shape::Unsupported { span: ty.span },
    }
}

/// The shapes of the type expressions in `types`, in order.
pub open spec fn shapes_of(types: Seq<TypeExpr>) -> Seq<Shape>
    decreases types, 1nat,
{
    Seq::new(
        types.len(),
        |i: int|
            if 0 <= i < types.len() {
                shape_of(types[i])
            } else {
                Shape::Tuple { elems: Seq::empty() }
            },
    )
}

impl View for TypeExpr {
    type V = Shape;

    open spec fn view(&self) -> Shape {
        shape_of(*self)
    }
}

impl View for NamedField {
    type V = NamedFieldModel;

    open spec fn view(&self) -> NamedFieldModel {
        NamedFieldModel { name: self.name@, shape: self.ty@ }
    }
}

impl View for UnnamedField {
    type V = Shape;

    open spec fn view(&self) -> Shape {
        self.ty@
    }
}

impl View for Generics {
    type V = GenericsModel;

    open spec fn view(&self) -> GenericsModel {
        GenericsModel {
            impl_generics: self.impl_generics@,
            type_generics: self.type_generics@,
            where_clause: self.where_clause@,
        }
    }
}

impl View for Data {
    type V = FieldsModel;

    /// A struct reads as its fields in declaration order, and a struct
    /// without a body as one without named fields. An enum and a union
    /// read as unsupported.
    open spec fn view(&self) -> FieldsModel {
        match *self {
            Data::Struct(Fields::Named(fields)) => FieldsModel::Named(
                Seq::new(fields@.len(), |i: int| fields@[i]@),
            ),
            Data::Struct(Fields::Unnamed(fields)) => FieldsModel::Unnamed(
                Seq::new(fields@.len(), |i: int| fields@[i]@),
            ),
            Data::Struct(Fields::Unit) => FieldsModel::Named(Seq::empty()),
            Data::Enum => FieldsModel::Unsupported,
            Data::Union => FieldsModel::Unsupported,
        }
    }
}

impl View for TypeDeclaration {
    type V = DeclarationModel;

    open spec fn view(&self) -> DeclarationModel {
        DeclarationModel {
            name: self.name@,
            generics: self.generics@,
            fields: self.data@,
            span: self.span,
        }
    }
}

} // verus!
