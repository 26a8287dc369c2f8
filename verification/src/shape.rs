use vstd::prelude::*;

use crate::model::{shape_of, shapes_of, Shape};
use crate::span::Span;
use crate::syntax::{TypeExpr, TypeKind};

verus! {

/// The shape of a declared type. It is computed afresh for every field and
/// never stored in a declaration.
#[derive(Debug, PartialEq, Eq)]
pub enum TypeShape {
    /// A named type; `ty` is the type as it is written.
    PathType { ty: String },
    /// An array of `len` elements of one shape.
    ArrayType { elem: Box<TypeShape>, len: u64 },
    /// A tuple, with the shapes of its elements in order.
    TupleType { elems: Vec<TypeShape> },
    /// A form that has no constant default; `span` is where it is written.
    Unsupported { span: Span },
}

impl TypeShape {
    /// The mathematical value that this shape stands for.
    pub open spec fn model(self) -> Shape
        decreases self, 0nat,
    {
        match self {
            TypeShape::PathType { ty } => Shape::Path { ty: ty@ },
            TypeShape::ArrayType { elem, len } => Shape::Array {
                elem: Box::new((*elem).model()),
                len: len as nat,
            },
            TypeShape::TupleType { elems } => Shape::Tuple { elems: models(elems@) },
            TypeShape::Unsupported { span } => Shape::Unsupported { span },
        }
    }
}

/// The mathematical values of the shapes in `shapes`, in order.
pub open spec fn models(shapes: Seq<TypeShape>) -> Seq<Shape>
    decreases shapes, 1nat,
{
    Seq::new(
        shapes.len(),
        |i: int|
            if 0 <= i < shapes.len() {
                shapes[i].model()
            } else {
                Shape::Tuple { elems: Seq::empty() }
            },
    )
}

impl View for TypeShape {
    type V = Shape;

    open spec fn view(&self) -> Shape {
        self.model()
    }
}

/// Computes the shape of a type expression.
pub fn type_shape(ty: &TypeExpr) -> (shape: TypeShape)
    ensures
        shape@ == ty@,
    decreases ty,
{
    match &ty.kind {
        TypeKind::Path { text } => TypeShape::PathType { ty: text.clone() },
        TypeKind::Array { elem, len } => match len {
            Some(n) => TypeShape::ArrayType { elem: Box::new(type_shape(elem)), len: *n },
            None => TypeShape::Unsupported { span: ty.span },
        },
        TypeKind::Tuple { elems } => {
            let mut shapes: Vec<TypeShape> = Vec::new();
            let mut i: usize = 0;
            while i < elems.len()
                invariant
                    i <= elems.len(),
                    ty.kind == (TypeKind::Tuple { elems: *elems }),
                    shapes@.len() == i,
                    forall|j: int| 0 <= j < i ==> (#[trigger] shapes@[j])@ == shape_of(elems@[j]),
                decreases elems.len() - i,
            {
                assert(decreases_to!(ty.kind => ty.kind->Tuple_elems));
                let shape = type_shape(&elems[i]);
                shapes.push(shape);
                i += 1;
            }
            assert(models(shapes@) =~= shapes_of(elems@));
            TypeShape::TupleType { elems: shapes }
        },
        TypeKind::Other { .. } => TypeShape::Unsupported { span: ty.span },
    }
}

} // verus!
