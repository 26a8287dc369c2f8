use vstd::prelude::*;
use vstd::string::*;

use crate::assembly::{
    derived,
    impls,
    named_constructor,
    named_impls,
    named_init,
    named_inits,
    named_shapes,
    unnamed_constructor,
    unnamed_impls,
};
use crate::codegen::{
    array_items,
    default_expr,
    default_exprs,
    field_expr,
    first_unsupported,
    first_unsupported_from,
    outcome,
    GeneratedFragment,
};
use crate::error::GenerationError;
use crate::model::{shapes_of, DeclarationModel, FieldsModel, NamedFieldModel, Shape};
use crate::syntax::{TypeDeclaration, TypeExpr, TypeKind};
use crate::text::{copies, join, joined_around, lemma_join_around, lemma_join_push};

verus! {

/// Whether a shape has a constant default in all its parts: it is a named
/// type, an array of a supported shape, or a tuple of supported shapes,
/// nested to any depth.
pub open spec fn supported(shape: Shape) -> bool
    decreases shape,
{
    match shape {
        Shape::Path { .. } => true,
        Shape::Array { elem, .. } => supported(*elem),
        Shape::Tuple { elems } => forall|i: int|
            0 <= i < elems.len() ==> supported(#[trigger] elems[i]),
        Shape::Unsupported { .. } => false,
    }
}

/// Whether a type is built of named types alone: a path, an array of known
/// length of such a type, or a tuple of such types, nested to any depth.
pub open spec fn built_from_paths(ty: TypeExpr) -> bool
    decreases ty,
{
    match ty.kind {
        TypeKind::Path { .. } => true,
        TypeKind::Array { elem, len } => len is Some && built_from_paths(*elem),
        TypeKind::Tuple { elems } => forall|i: int|
            0 <= i < elems@.len() ==> built_from_paths(#[trigger] elems@[i]),
        TypeKind::Other { .. } => false,
    }
}

/// The shapes of the fields of a declaration, in declaration order; none
/// where it is not a struct.
pub open spec fn field_shapes(decl: DeclarationModel) -> Seq<Shape> {
    match decl.fields {
        FieldsModel::Named(fields) => named_shapes(fields),
        FieldsModel::Unnamed(fields) => fields,
        FieldsModel::Unsupported => Seq::empty(),
    }
}

/// The constructor expression of a struct: by name or by position, as its
/// fields are declared.
pub open spec fn constructor(decl: DeclarationModel) -> Seq<char> {
    match decl.fields {
        FieldsModel::Unnamed(fields) => unnamed_constructor(fields),
        FieldsModel::Named(fields) => named_constructor(fields),
        FieldsModel::Unsupported => Seq::empty(),
    }
}

/// Among shapes that are all supported from `from` on, none is refused.
pub proof fn lemma_none_refused(shapes: Seq<Shape>, from: nat)
    requires
        forall|i: int| from <= i < shapes.len() ==> first_unsupported(#[trigger] shapes[i]) is None,
    ensures
        first_unsupported_from(shapes, from) is None,
    decreases shapes.len() - from,
{
    if from < shapes.len() {
        lemma_none_refused(shapes, from + 1);
    }
}

/// Where the shapes from `from` up to `at` are all supported, looking from
/// `from` gives what looking from `at` gives.
pub proof fn lemma_refusal_skips_supported(shapes: Seq<Shape>, from: nat, at: nat)
    requires
        from <= at <= shapes.len(),
        forall|i: int| from <= i < at ==> first_unsupported(#[trigger] shapes[i]) is None,
    ensures
        first_unsupported_from(shapes, from) == first_unsupported_from(shapes, at),
    decreases at - from,
{
    if from < at {
        lemma_refusal_skips_supported(shapes, from + 1, at);
    }
}

/// A shape that is refused somewhere from `from` on makes the whole list
/// refused.
pub proof fn lemma_some_refused(shapes: Seq<Shape>, from: nat, at: nat)
    requires
        from <= at < shapes.len(),
        first_unsupported(shapes[at as int]) is Some,
    ensures
        first_unsupported_from(shapes, from) is Some,
    decreases at - from,
{
    if from < at {
        lemma_some_refused(shapes, from + 1, at);
    }
}

/// A shape has no unsupported part exactly where it is supported.
pub proof fn lemma_supported(shape: Shape)
    ensures
        first_unsupported(shape) is None <==> supported(shape),
    decreases shape,
{
    match shape {
        Shape::Path { .. } => {},
        Shape::Array { elem, .. } => {
            lemma_supported(*elem);
        },
        Shape::Tuple { elems } => {
            assert forall|i: int| 0 <= i < elems.len() implies (first_unsupported(
                #[trigger] elems[i],
            ) is None <==> supported(elems[i])) by {
                lemma_supported(elems[i]);
            }
            if supported(shape) {
                lemma_none_refused(elems, 0);
            } else {
                let at = choose|i: int| 0 <= i < elems.len() && !supported(elems[i]);
                lemma_some_refused(elems, 0, at as nat);
            }
        },
        Shape::Unsupported { .. } => {},
    }
}

/// A type has a supported shape exactly where it is built of named types
/// alone.
pub proof fn lemma_built_from_paths(ty: TypeExpr)
    ensures
        supported(ty@) <==> built_from_paths(ty),
    decreases ty,
{
    match ty.kind {
        TypeKind::Path { .. } => {},
        TypeKind::Array { elem, len } => {
            if len is Some {
                lemma_built_from_paths(*elem);
            }
        },
        TypeKind::Tuple { elems } => {
            let shapes = shapes_of(elems@);
            assert forall|i: int| 0 <= i < elems@.len() implies (supported(#[trigger] shapes[i])
                <==> built_from_paths(elems@[i])) by {
                lemma_built_from_paths(elems@[i]);
            }
            if !built_from_paths(ty) {
                let at = choose|i: int| 0 <= i < elems@.len() && !built_from_paths(elems@[i]);
                assert(ty@->Tuple_elems[at] == shapes[at]);
            }
        },
        TypeKind::Other { .. } => {},
    }
}

/// Deriving is a function of what a declaration reads as: whatever two
/// runs return, on one declaration or on two that read the same, they
/// return the same text, or the same error.
pub proof fn derive_is_deterministic(
    a: TypeDeclaration,
    b: TypeDeclaration,
    first: Result<GeneratedFragment, GenerationError>,
    second: Result<GeneratedFragment, GenerationError>,
)
    requires
        a@ == b@,
        outcome(first) == derived(a@),
        outcome(second) == derived(b@),
    ensures
        outcome(first) == outcome(second),
        first matches Ok(text) ==> second matches Ok(again) && text@ == again@,
        first matches Err(error) ==> second == Err::<GeneratedFragment, GenerationError>(error),
{
}

/// The constructor of a struct with named fields sets the fields in
/// declaration order: there is one initialiser for each field, and the
/// initialiser of each field stands after those of the fields declared
/// before it and before those of the fields declared after it. Where code
/// is generated, it is the code around that constructor.
pub proof fn named_fields_keep_their_order(
    fields: Seq<NamedFieldModel>,
    decl: DeclarationModel,
    i: int,
)
    requires
        0 <= i < fields.len(),
    ensures
        named_inits(fields).len() == fields.len(),
        named_inits(fields)[i] == named_init(fields[i]),
        named_inits(fields).take(i) == named_inits(fields.take(i)),
        named_inits(fields).skip(i + 1) == named_inits(fields.skip(i + 1)),
        named_constructor(fields) == "Self { "@ + joined_around(named_inits(fields), i, ", "@)
            + " }"@,
        named_impls(fields, decl) is Ok ==> named_impls(fields, decl) == Ok::<
            Seq<char>,
            GenerationError,
        >(impls(decl, "Self { "@ + joined_around(named_inits(fields), i, ", "@) + " }"@)),
{
    assert(named_inits(fields).take(i) =~= named_inits(fields.take(i)));
    assert(named_inits(fields).skip(i + 1) =~= named_inits(fields.skip(i + 1)));
    lemma_join_around(named_inits(fields), i, ", "@);
}

/// The constructor of a tuple struct sets the fields by position, in
/// declaration order: the initialiser at each position is the constant
/// default of the field declared at that position, after those of the
/// fields before it and before those of the fields after it. Where code is
/// generated, it is the code around that constructor.
pub proof fn unnamed_fields_keep_their_order(fields: Seq<Shape>, decl: DeclarationModel, i: int)
    requires
        0 <= i < fields.len(),
    ensures
        default_exprs(fields).len() == fields.len(),
        default_exprs(fields)[i] == default_expr(fields[i]),
        default_exprs(fields).take(i) == default_exprs(fields.take(i)),
        default_exprs(fields).skip(i + 1) == default_exprs(fields.skip(i + 1)),
        unnamed_constructor(fields) == "Self("@ + joined_around(default_exprs(fields), i, ", "@)
            + ")"@,
        unnamed_impls(fields, decl) is Ok ==> unnamed_impls(fields, decl) == Ok::<
            Seq<char>,
            GenerationError,
        >(impls(decl, "Self("@ + joined_around(default_exprs(fields), i, ", "@) + ")"@)),
{
    assert(default_exprs(fields).take(i) =~= default_exprs(fields.take(i)));
    assert(default_exprs(fields).skip(i + 1) =~= default_exprs(fields.skip(i + 1)));
    lemma_join_around(default_exprs(fields), i, ", "@);
}

/// A struct without fields derives, and its constructor has nothing
/// between its brackets.
pub proof fn empty_struct_derives(decl: DeclarationModel)
    requires
        decl.fields !is Unsupported,
        field_shapes(decl).len() == 0,
    ensures
        derived(decl) == Ok::<Seq<char>, GenerationError>(impls(decl, constructor(decl))),
        constructor(decl) == if decl.fields is Named {
            "Self {}"@
        } else {
            "Self()"@
        },
{
    if decl.fields is Unnamed {
        assert("Self("@ + Seq::<char>::empty() + ")"@ =~= "Self("@ + ")"@);
        reveal_strlit("Self(");
        reveal_strlit(")");
        reveal_strlit("Self()");
        assert("Self("@ + ")"@ =~= "Self()"@);
    }
}

/// A type that is built of named types alone has a constant default,
/// whatever the depth to which its tuples and arrays are nested, and a type
/// with any other part has none.
pub proof fn nested_paths_derive(ty: TypeExpr)
    ensures
        built_from_paths(ty) ==> field_expr(ty@) == Ok::<Seq<char>, GenerationError>(
            default_expr(ty@),
        ),
        !built_from_paths(ty) ==> field_expr(ty@) matches Err(
            GenerationError::UnsupportedFieldType { .. },
        ),
{
    lemma_built_from_paths(ty);
    lemma_supported(ty@);
}

/// A struct whose fields all have supported shapes derives.
pub proof fn struct_of_supported_fields_derives(decl: DeclarationModel)
    requires
        decl.fields !is Unsupported,
        forall|i: int|
            0 <= i < field_shapes(decl).len() ==> supported(#[trigger] field_shapes(decl)[i]),
    ensures
        derived(decl) == Ok::<Seq<char>, GenerationError>(impls(decl, constructor(decl))),
{
    let shapes = field_shapes(decl);
    assert forall|i: int| 0 <= i < shapes.len() implies first_unsupported(
        #[trigger] shapes[i],
    ) is None by {
        lemma_supported(shapes[i]);
    }
    lemma_none_refused(shapes, 0);
}

/// A type of any form but a path, an array and a tuple, and an array whose
/// length is not known, is refused at the place where it is written.
pub proof fn other_forms_are_refused(ty: TypeExpr)
    requires
        ty.kind is Other || ty.kind matches TypeKind::Array { len: None, .. },
    ensures
        ty@ == (Shape::Unsupported { span: ty.span }),
        field_expr(ty@) == Err::<Seq<char>, GenerationError>(
            GenerationError::UnsupportedFieldType { span: ty.span },
        ),
{
}

/// A field whose shape is not supported refuses the whole struct: deriving
/// gives an error for an unsupported field type, and no code.
pub proof fn unsupported_field_refuses_the_struct(decl: DeclarationModel, i: int)
    requires
        decl.fields !is Unsupported,
        0 <= i < field_shapes(decl).len(),
        !supported(field_shapes(decl)[i]),
    ensures
        derived(decl) matches Err(GenerationError::UnsupportedFieldType { .. }),
{
    let shapes = field_shapes(decl);
    lemma_supported(shapes[i]);
    lemma_some_refused(shapes, 0, i as nat);
}

/// The error is located at the unsupported field: where the fields before
/// a field are supported and the field itself is not, deriving gives the
/// error for an unsupported field type at the first unsupported part of
/// that field's type; that is the place of the type itself where the type
/// as a whole is unsupported.
pub proof fn unsupported_field_is_located(decl: DeclarationModel, i: int)
    requires
        decl.fields !is Unsupported,
        0 <= i < field_shapes(decl).len(),
        !supported(field_shapes(decl)[i]),
        forall|j: int| 0 <= j < i ==> supported(#[trigger] field_shapes(decl)[j]),
    ensures
        first_unsupported(field_shapes(decl)[i]) matches Some(span) && derived(decl) == Err::<
            Seq<char>,
            GenerationError,
        >(GenerationError::UnsupportedFieldType { span }),
        field_shapes(decl)[i] matches Shape::Unsupported { span } ==> derived(decl) == Err::<
            Seq<char>,
            GenerationError,
        >(GenerationError::UnsupportedFieldType { span }),
{
    let shapes = field_shapes(decl);
    assert forall|j: int| 0 <= j < i implies first_unsupported(#[trigger] shapes[j]) is None by {
        lemma_supported(shapes[j]);
    }
    lemma_supported(shapes[i]);
    lemma_refusal_skips_supported(shapes, 0, i as nat);
}

/// The literal of an array of `len` elements holds exactly `len` copies of
/// the constant default of its element type, with a comma between each
/// two.
pub proof fn array_literal_replicates(elem: Shape, len: nat)
    requires
        supported(elem),
    ensures
        field_expr(Shape::Array { elem: Box::new(elem), len }) == Ok::<
            Seq<char>,
            GenerationError,
        >("["@ + join(copies(default_expr(elem), len), ", "@) + "]"@),
        copies(default_expr(elem), len).len() == len,
        forall|i: int|
            0 <= i < len ==> #[trigger] copies(default_expr(elem), len)[i] == default_expr(elem),
{
    lemma_supported(elem);
}

/// What stands in an array literal grows by one copy for each element
/// more: nothing for no element, the expression alone for one, then a
/// comma and one copy more each time; and its length counts the copies and
/// the commas between them.
pub proof fn array_items_grow_by_one_copy(expr: Seq<char>, len: nat)
    ensures
        array_items(expr, 0) == Seq::<char>::empty(),
        array_items(expr, 1) == expr,
        len >= 1 ==> array_items(expr, len + 1) == array_items(expr, len) + ", "@ + expr,
        len >= 1 ==> array_items(expr, len).len() == len * expr.len() + 2 * (len - 1),
    decreases len,
{
    lemma_join_push(copies(expr, 0), expr, ", "@);
    assert(copies(expr, 0).push(expr) =~= copies(expr, 1));
    lemma_join_push(copies(expr, len), expr, ", "@);
    assert(copies(expr, len).push(expr) =~= copies(expr, len + 1));
    if len == 1 {
        assert(len * expr.len() == expr.len()) by (nonlinear_arith)
            requires
                len == 1,
        ;
    } else if len > 1 {
        let less = (len - 1) as nat;
        array_items_grow_by_one_copy(expr, less);
        reveal_strlit(", ");
        assert(array_items(expr, len).len() == array_items(expr, less).len() + 2 + expr.len());
        assert(len * expr.len() == less * expr.len() + expr.len()) by (nonlinear_arith)
            requires
                len == less + 1,
        ;
    }
}

} // verus!
