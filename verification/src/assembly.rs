use vstd::prelude::*;
use vstd::string::*;

use crate::codegen::{
    default_expr,
    default_exprs,
    first_unsupported_from,
    generate_field_expr,
    generated,
    outcome,
    GeneratedFragment,
};
use crate::error::GenerationError;
use crate::fields::{
    get_struct_field_names,
    named_models,
    unnamed_models,
    FieldInfo,
    NamedFieldInfo,
    UnnamedFieldInfo,
};
use crate::model::{DeclarationModel, FieldsModel, NamedFieldModel, Shape};
use crate::syntax::TypeDeclaration;
use crate::text::{join, push_joined};

verus! {

/// A `where` clause as it stands in a header: after a space, or not at all.
pub open spec fn where_part(clause: Seq<char>) -> Seq<char> {
    if clause.len() == 0 {
        clause
    } else {
        " "@ + clause
    }
}

/// The header of an `impl` block for the declared type: the generic
/// parameters, `target` (empty, or a trait and `for`), the type's name with
/// its parameters, and the `where` clause, each as the declaration has it.
pub open spec fn impl_header(decl: DeclarationModel, target: Seq<char>) -> Seq<char> {
    "impl"@ + decl.generics.impl_generics + " "@ + target + decl.name
        + decl.generics.type_generics + where_part(decl.generics.where_clause)
}

/// The three code units that are generated around a constructor
/// expression: the constant constructor `default`, the implementation of
/// `Default` that calls it, and the implementation of the capability whose
/// constant is a call of it.
pub open spec fn impls(decl: DeclarationModel, constructor: Seq<char>) -> Seq<char> {
    impl_header(decl, ""@) + " { pub const fn default() -> Self { "@ + constructor + " } } "@
        + impl_header(decl, "::core::default::Default for "@)
        + " { fn default() -> Self { Self::default() } } "@ + impl_header(
        decl,
        "::constant::Constdef for "@,
    ) + " { const DEFAULT: Self = Self::default(); }"@
}

/// The shapes of the named fields in `fields`, in order.
pub open spec fn named_shapes(fields: Seq<NamedFieldModel>) -> Seq<Shape> {
    Seq::new(fields.len(), |i: int| fields[i].shape)
}

/// The initialiser of one named field: its name, a colon, and the constant
/// default of its type.
pub open spec fn named_init(field: NamedFieldModel) -> Seq<char> {
    field.name + ": "@ + default_expr(field.shape)
}

/// The initialisers of the named fields in `fields`, in order.
pub open spec fn named_inits(fields: Seq<NamedFieldModel>) -> Seq<Seq<char>> {
    Seq::new(fields.len(), |i: int| named_init(fields[i]))
}

/// The constructor expression of a struct with named fields: every field
/// set by name, in declaration order.
pub open spec fn named_constructor(fields: Seq<NamedFieldModel>) -> Seq<char> {
    if fields.len() == 0 {
        "Self {}"@
    } else {
        "Self { "@ + join(named_inits(fields), ", "@) + " }"@
    }
}

/// The constructor expression of a tuple struct: every field set by
/// position, in declaration order, to the constant default of its type.
pub open spec fn unnamed_constructor(fields: Seq<Shape>) -> Seq<char> {
    "Self("@ + join(default_exprs(fields), ", "@) + ")"@
}

/// What is generated for a struct with the named fields `fields`: the error
/// at the first unsupported part of the first field that has one, or else
/// the three code units around the constructor by name.
pub open spec fn named_impls(fields: Seq<NamedFieldModel>, decl: DeclarationModel) -> Result<
    Seq<char>,
    GenerationError,
> {
    generated(
        first_unsupported_from(named_shapes(fields), 0),
        impls(decl, named_constructor(fields)),
    )
}

/// What is generated for a tuple struct with fields of the shapes
/// `fields`: the error at the first unsupported part of the first field
/// that has one, or else the three code units around the constructor by
/// position.
pub open spec fn unnamed_impls(fields: Seq<Shape>, decl: DeclarationModel) -> Result<
    Seq<char>,
    GenerationError,
> {
    generated(first_unsupported_from(fields, 0), impls(decl, unnamed_constructor(fields)))
}

/// What deriving for a declaration gives.
///
/// A struct gives the code units for its fields, or the error of its first
/// refused field. Anything but a struct is refused as a whole, at the
/// place of the declaration.
pub open spec fn derived(decl: DeclarationModel) -> Result<Seq<char>, GenerationError> {
    match decl.fields {
        FieldsModel::Named(fields) => named_impls(fields, decl),
        FieldsModel::Unnamed(fields) => unnamed_impls(fields, decl),
        FieldsModel::Unsupported => Err(
            GenerationError::UnsupportedDeclarationKind { span: decl.span },
        ),
    }
}

/// Writes the header of an `impl` block for the declared type.
fn write_impl_header(decl: &TypeDeclaration, target: &str) -> (header: String)
    ensures
        header@ == impl_header(decl@, target@),
{
    let mut header = String::from_str("impl");
    header.append(decl.generics.impl_generics.as_str());
    header.append(" ");
    header.append(target);
    header.append(decl.name.as_str());
    header.append(decl.generics.type_generics.as_str());
    if !decl.generics.where_clause.as_str().is_empty() {
        let mut clause = String::from_str(" ");
        clause.append(decl.generics.where_clause.as_str());
        header.append(clause.as_str());
    }
    assert(header@ =~= impl_header(decl@, target@));
    header
}

/// Writes the three code units around a constructor expression.
fn write_impls(decl: &TypeDeclaration, constructor: &str) -> (code: String)
    ensures
        code@ == impls(decl@, constructor@),
{
    let mut code = write_impl_header(decl, "");
    code.append(" { pub const fn default() -> Self { ");
    code.append(constructor);
    code.append(" } } ");
    code.append(write_impl_header(decl, "::core::default::Default for ").as_str());
    code.append(" { fn default() -> Self { Self::default() } } ");
    code.append(write_impl_header(decl, "::constant::Constdef for ").as_str());
    code.append(" { const DEFAULT: Self = Self::default(); }");
    code
}

/// Generates the code units for a struct with named fields.
///
/// The fields are taken in declaration order. The first one whose type is
/// refused ends the run with its error, and nothing is generated.
pub fn generate_named(fields: Vec<NamedFieldInfo<'_>>, ast: &TypeDeclaration) -> (result: Result<
    GeneratedFragment,
    GenerationError,
>)
    ensures
        outcome(result) == named_impls(named_models(fields@), ast@),
{
    let ghost models = named_models(fields@);
    let ghost shapes = named_shapes(models);
    let ghost inits = named_inits(models);
    let mut self_args = String::new();
    let mut i: usize = 0;
    while i < fields.len()
        invariant
            i <= fields.len(),
            models == named_models(fields@),
            shapes == named_shapes(models),
            inits == named_inits(models),
            first_unsupported_from(shapes, 0) == first_unsupported_from(shapes, i as nat),
            self_args@ == join(inits.take(i as int), ", "@),
        decreases fields.len() - i,
    {
        let field = &fields[i];
        let expr = match generate_field_expr(field.ty) {
            Ok(expr) => expr,
            Err(error) => {
                return Err(error);
            },
        };
        let mut init = field.name.clone();
        init.append(": ");
        init.append(expr.as_str());
        proof {
            assert(inits.take(i as int).push(init@) =~= inits.take(i + 1));
        }
        push_joined(&mut self_args, i, init.as_str(), ", ", Ghost(inits.take(i as int)));
        i += 1;
    }
    assert(inits.take(i as int) =~= inits);
    let constructor = if fields.len() == 0 {
        String::from_str("Self {}")
    } else {
        let mut constructor = String::from_str("Self { ");
        constructor.append(self_args.as_str());
        constructor.append(" }");
        constructor
    };
    Ok(write_impls(ast, constructor.as_str()))
}

/// Generates the code units for a tuple struct.
///
/// The fields are taken in declaration order. The first one whose type is
/// refused ends the run with its error, and nothing is generated.
pub fn generate_unnamed(fields: Vec<UnnamedFieldInfo<'_>>, ast: &TypeDeclaration) -> (result:
    Result<GeneratedFragment, GenerationError>)
    ensures
        outcome(result) == unnamed_impls(unnamed_models(fields@), ast@),
{
    let ghost shapes = unnamed_models(fields@);
    let ghost inits = default_exprs(shapes);
    let mut self_args = String::new();
    let mut i: usize = 0;
    while i < fields.len()
        invariant
            i <= fields.len(),
            shapes == unnamed_models(fields@),
            inits == default_exprs(shapes),
            first_unsupported_from(shapes, 0) == first_unsupported_from(shapes, i as nat),
            self_args@ == join(inits.take(i as int), ", "@),
        decreases fields.len() - i,
    {
        let field = &fields[i];
        let expr = match generate_field_expr(field.ty) {
            Ok(expr) => expr,
            Err(error) => {
                return Err(error);
            },
        };
        proof {
            assert(inits.take(i as int).push(expr@) =~= inits.take(i + 1));
        }
        push_joined(&mut self_args, i, expr.as_str(), ", ", Ghost(inits.take(i as int)));
        i += 1;
    }
    assert(inits.take(i as int) =~= inits);
    let mut constructor = String::from_str("Self(");
    constructor.append(self_args.as_str());
    constructor.append(")");
    Ok(write_impls(ast, constructor.as_str()))
}

/// Derives the constant default of a declared type: the code units to be
/// added beside the declaration, or the one error that refuses it.
pub fn derive(input: &TypeDeclaration) -> (result: Result<GeneratedFragment, GenerationError>)
    ensures
        outcome(result) == derived(input@),
{
    let fields = match get_struct_field_names(input) {
        Ok(fields) => fields,
        Err(error) => {
            return Err(error);
        },
    };
    match fields {
        FieldInfo::Named(fields) => generate_named(fields, input),
        FieldInfo::Unnamed(fields) => generate_unnamed(fields, input),
    }
}

} // verus!
