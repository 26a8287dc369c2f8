use vstd::prelude::*;
use vstd::string::*;

use crate::error::GenerationError;
use crate::model::Shape;
use crate::shape::{models, type_shape, TypeShape};
use crate::span::Span;
use crate::syntax::TypeExpr;
use crate::text::{copies, join, lemma_join_push, push_joined};

verus! {

/// A piece of generated code: the expression for one field, or the code
/// units for a whole type.
pub type GeneratedFragment = String;

/// The place of the first unsupported part of a shape, looking through
/// arrays and tuples from left to right; `None` where every part has a
/// constant default.
pub open spec fn first_unsupported(shape: Shape) -> Option<Span>
    decreases shape, 0nat,
{
    match shape {
        Shape::Path { .. } => None,
        Shape::Array { elem, .. } => first_unsupported(*elem),
        Shape::Tuple { elems } => first_unsupported_from(elems, 0),
        Shape::Unsupported { span } => Some(span),
    }
}

/// The place of the first unsupported part among the shapes from index
/// `from` on.
pub open spec fn first_unsupported_from(shapes: Seq<Shape>, from: nat) -> Option<Span>
    decreases shapes, shapes.len() - from,
{
    if from >= shapes.len() {
        None
    } else {
        match first_unsupported(shapes[from as int]) {
            Some(span) => Some(span),
            None => first_unsupported_from(shapes, from + 1),
        }
    }
}

/// The constant of the capability for a named type: `<T as
/// ::constant::Constdef>::DEFAULT`.
pub open spec fn capability_default(ty: Seq<char>) -> Seq<char> {
    "<"@ + ty + " as ::constant::Constdef>::DEFAULT"@
}

/// The expression that stands for the constant default of a shape without
/// unsupported parts.
///
/// A named type gives the constant of the capability. An array gives a list
/// in square brackets of as many copies of its element's expression as it
/// has elements. A tuple gives the list of its elements' expressions in
/// round brackets, where one element alone is followed by a comma.
pub open spec fn default_expr(shape: Shape) -> Seq<char>
    decreases shape, 0nat,
{
    match shape {
        Shape::Path { ty } => capability_default(ty),
        Shape::Array { elem, len } => "["@ + array_items(default_expr(*elem), len) + "]"@,
        Shape::Tuple { elems } => "("@ + tuple_items(default_exprs(elems)) + ")"@,
        Shape::Unsupported { .. } => Seq::empty(),
    }
}

/// The expressions of the shapes in `shapes`, in order.
pub open spec fn default_exprs(shapes: Seq<Shape>) -> Seq<Seq<char>>
    decreases shapes, 1nat,
{
    Seq::new(
        shapes.len(),
        |i: int|
            if 0 <= i < shapes.len() {
                default_expr(shapes[i])
            } else {
                Seq::empty()
            },
    )
}

/// What stands between the brackets of an array literal: `len` copies of
/// the element's expression, separated by commas.
pub open spec fn array_items(elem: Seq<char>, len: nat) -> Seq<char> {
    join(copies(elem, len), ", "@)
}

/// What stands between the brackets of a tuple literal: the elements'
/// expressions separated by commas, and a comma after one that stands
/// alone.
pub open spec fn tuple_items(elems: Seq<Seq<char>>) -> Seq<char> {
    if elems.len() == 1 {
        elems[0] + ","@
    } else {
        join(elems, ", "@)
    }
}

/// What generating from a shape gives: an error at the first unsupported
/// part, or else the text `text`.
pub open spec fn generated(shape_error: Option<Span>, text: Seq<char>) -> Result<
    Seq<char>,
    GenerationError,
> {
    match shape_error {
        Some(span) => Err(GenerationError::UnsupportedFieldType { span }),
        None => Ok(text),
    }
}

/// What a run of the generator returned, with the text as a sequence of
/// characters.
pub open spec fn outcome(result: Result<GeneratedFragment, GenerationError>) -> Result<
    Seq<char>,
    GenerationError,
> {
    match result {
        Ok(text) => Ok(text@),
        Err(error) => Err(error),
    }
}

/// The constant default of a type of the shape `shape`: the expression of
/// the shape, or the error at its first unsupported part.
pub open spec fn field_expr(shape: Shape) -> Result<Seq<char>, GenerationError> {
    generated(first_unsupported(shape), default_expr(shape))
}

/// Generates the expression for the constant default of a shape.
pub fn shape_expr(shape: &TypeShape) -> (result: Result<GeneratedFragment, GenerationError>)
    ensures
        outcome(result) == field_expr(shape@),
    decreases shape, 0nat,
{
    match shape {
        TypeShape::PathType { ty } => {
            let mut out = String::from_str("<");
            out.append(ty.as_str());
            out.append(" as ::constant::Constdef>::DEFAULT");
            Ok(out)
        },
        TypeShape::ArrayType { elem, len } => {
            match process_array(elem, *len) {
                Ok(items) => {
                    let mut out = String::from_str("[");
                    out.append(items.as_str());
                    out.append("]");
                    Ok(out)
                },
                Err(error) => Err(error),
            }
        },
        TypeShape::TupleType { elems } => {
            match recursive_process_tuple(elems) {
                Ok(items) => {
                    let mut out = String::from_str("(");
                    out.append(items.as_str());
                    out.append(")");
                    Ok(out)
                },
                Err(error) => Err(error),
            }
        },
        TypeShape::Unsupported { span } => Err(
            GenerationError::UnsupportedFieldType { span: *span },
        ),
    }
}

/// Generates what stands between the brackets of an array literal: the
/// element's expression is generated once and then written `len` times.
pub fn process_array(elem: &TypeShape, len: u64) -> (result: Result<
    GeneratedFragment,
    GenerationError,
>)
    ensures
        outcome(result) == generated(
            first_unsupported(elem@),
            array_items(default_expr(elem@), len as nat),
        ),
    decreases elem, 1nat,
{
    let item = match shape_expr(elem) {
        Ok(item) => item,
        Err(error) => {
            return Err(error);
        },
    };
    let mut out = String::new();
    let mut i: u64 = 0;
    while i < len
        invariant
            i <= len,
            out@ == array_items(item@, i as nat),
        decreases len - i,
    {
        proof {
            lemma_join_push(copies(item@, i as nat), item@, ", "@);
            assert(copies(item@, i as nat).push(item@) =~= copies(item@, (i + 1) as nat));
        }
        if i > 0 {
            out.append(", ");
        }
        out.append(item.as_str());
        i += 1;
    }
    Ok(out)
}

/// Generates what stands between the brackets of a tuple literal: the
/// expressions of the elements, each generated in its turn.
pub fn recursive_process_tuple(elems: &Vec<TypeShape>) -> (result: Result<
    GeneratedFragment,
    GenerationError,
>)
    ensures
        outcome(result) == generated(
            first_unsupported_from(models(elems@), 0),
            tuple_items(default_exprs(models(elems@))),
        ),
    decreases elems, 1nat,
{
    let ghost shapes = models(elems@);
    let ghost exprs = default_exprs(shapes);
    let mut out = String::new();
    let mut i: usize = 0;
    while i < elems.len()
        invariant
            i <= elems.len(),
            shapes == models(elems@),
            exprs == default_exprs(shapes),
            first_unsupported_from(shapes, 0) == first_unsupported_from(shapes, i as nat),
            out@ == join(exprs.take(i as int), ", "@),
        decreases elems.len() - i,
    {
        let item = match shape_expr(&elems[i]) {
            Ok(item) => item,
            Err(error) => {
                return Err(error);
            },
        };
        proof {
            assert(exprs.take(i as int).push(item@) =~= exprs.take(i + 1));
        }
        push_joined(&mut out, i, item.as_str(), ", ", Ghost(exprs.take(i as int)));
        i += 1;
    }
    assert(exprs.take(i as int) =~= exprs);
    if elems.len() == 1 {
        out.append(",");
    }
    Ok(out)
}

/// Generates the expression for the constant default of a declared type.
///
/// The type's shape decides: a path, an array and a tuple give an
/// expression, built from the inside out; anything else is refused at the
/// place where it is written, and nothing is generated.
pub fn generate_field_expr(ty: &TypeExpr) -> (result: Result<GeneratedFragment, GenerationError>)
    ensures
        outcome(result) == field_expr(ty@),
{
    let shape = type_shape(ty);
    shape_expr(&shape)
}

} // verus!
