use vstd::prelude::*;

use crate::error::GenerationError;
use crate::model::{FieldsModel, NamedFieldModel, Shape};
use crate::syntax::{Data, Fields, NamedField, TypeDeclaration, TypeExpr, UnnamedField};

verus! {

/// A named field, as the generator reads it: its name, its declared type
/// and its attributes, borrowed from the declaration.
#[derive(Debug, PartialEq, Eq)]
pub struct NamedFieldInfo<'a> {
    pub name: &'a String,
    pub ty: &'a TypeExpr,
    pub attrs: &'a Vec<String>,
}

/// A positional field, as the generator reads it: its declared type and its
/// attributes, borrowed from the declaration.
#[derive(Debug, PartialEq, Eq)]
pub struct UnnamedFieldInfo<'a> {
    pub ty: &'a TypeExpr,
    pub attrs: &'a Vec<String>,
}

/// The fields of a struct in declaration order, in one of the two shapes
/// that a constructor is written in.
#[derive(Debug, PartialEq, Eq)]
pub enum FieldInfo<'a> {
    /// Fields that the constructor sets by name.
    Named(Vec<NamedFieldInfo<'a>>),
    /// Fields that the constructor sets by position.
    Unnamed(Vec<UnnamedFieldInfo<'a>>),
}

impl View for NamedFieldInfo<'_> {
    type V = NamedFieldModel;

    open spec fn view(&self) -> NamedFieldModel {
        NamedFieldModel { name: self.name@, shape: self.ty@ }
    }
}

impl View for UnnamedFieldInfo<'_> {
    type V = Shape;

    open spec fn view(&self) -> Shape {
        self.ty@
    }
}

/// The named fields in `fields` as the derivation reads them, in order.
pub open spec fn named_models(fields: Seq<NamedFieldInfo>) -> Seq<NamedFieldModel> {
    Seq::new(fields.len(), |i: int| fields[i]@)
}

/// The shapes of the positional fields in `fields`, in order.
pub open spec fn unnamed_models(fields: Seq<UnnamedFieldInfo>) -> Seq<Shape> {
    Seq::new(fields.len(), |i: int| fields[i]@)
}

impl View for FieldInfo<'_> {
    type V = FieldsModel;

    open spec fn view(&self) -> FieldsModel {
        match *self {
            FieldInfo::Named(fields) => FieldsModel::Named(named_models(fields@)),
            FieldInfo::Unnamed(fields) => FieldsModel::Unnamed(unnamed_models(fields@)),
        }
    }
}

/// What the generator reads of one named field.
pub open spec fn named_info(field: NamedField) -> NamedFieldInfo<'static> {
    NamedFieldInfo { name: &field.name, ty: &field.ty, attrs: &field.attrs }
}

/// What the generator reads of one positional field.
pub open spec fn unnamed_info(field: UnnamedField) -> UnnamedFieldInfo<'static> {
    UnnamedFieldInfo { ty: &field.ty, attrs: &field.attrs }
}

/// What the generator reads of the named fields in `fields`, in order.
pub open spec fn named_infos(fields: Seq<NamedField>) -> Seq<NamedFieldInfo<'static>> {
    Seq::new(fields.len(), |i: int| named_info(fields[i]))
}

/// What the generator reads of the positional fields in `fields`, in order.
pub open spec fn unnamed_infos(fields: Seq<UnnamedField>) -> Seq<UnnamedFieldInfo<'static>> {
    Seq::new(fields.len(), |i: int| unnamed_info(fields[i]))
}

/// Whether `result` is the field list of `decl`.
///
/// A struct gives its fields in declaration order, named or positional as
/// they are declared; a struct without a body gives an empty list of named
/// fields. Anything but a struct is refused at the place of the whole
/// declaration.
pub open spec fn is_field_list_of(
    decl: TypeDeclaration,
    result: Result<FieldInfo<'_>, GenerationError>,
) -> bool {
    match decl.data {
        Data::Struct(Fields::Named(fields)) => result matches Ok(FieldInfo::Named(infos))
            && infos@ == named_infos(fields@),
        Data::Struct(Fields::Unnamed(fields)) => result matches Ok(FieldInfo::Unnamed(infos))
            && infos@ == unnamed_infos(fields@),
        Data::Struct(Fields::Unit) => result matches Ok(FieldInfo::Named(infos)) && infos@
            == Seq::<NamedFieldInfo>::empty(),
        _ => result == Err::<FieldInfo, GenerationError>(
            GenerationError::UnsupportedDeclarationKind { span: decl.span },
        ),
    }
}

/// Returns the fields of a struct with their types, in declaration order,
/// or an error if the declaration is not a struct.
pub fn get_struct_field_names<'a>(ast: &'a TypeDeclaration) -> (result: Result<
    FieldInfo<'a>,
    GenerationError,
>)
    ensures
        is_field_list_of(*ast, result),
        match result {
            Ok(fields) => fields@ == ast@.fields,
            Err(error) => ast@.fields is Unsupported,
        },
{
    match &ast.data {
        Data::Struct(Fields::Named(fields)) => {
            let mut infos: Vec<NamedFieldInfo<'a>> = Vec::new();
            let mut i: usize = 0;
            while i < fields.len()
                invariant
                    i <= fields.len(),
                    infos@ == named_infos(fields@).take(i as int),
                decreases fields.len() - i,
            {
                let field = &fields[i];
                infos.push(
                    NamedFieldInfo { name: &field.name, ty: &field.ty, attrs: &field.attrs },
                );
                assert(infos@ =~= named_infos(fields@).take(i + 1));
                i += 1;
            }
            assert(infos@ =~= named_infos(fields@));
            assert(named_models(infos@) =~= ast@.fields->Named_0);
            Ok(FieldInfo::Named(infos))
        },
        Data::Struct(Fields::Unnamed(fields)) => {
            let mut infos: Vec<UnnamedFieldInfo<'a>> = Vec::new();
            let mut i: usize = 0;
            while i < fields.len()
                invariant
                    i <= fields.len(),
                    infos@ == unnamed_infos(fields@).take(i as int),
                decreases fields.len() - i,
            {
                let field = &fields[i];
                infos.push(UnnamedFieldInfo { ty: &field.ty, attrs: &field.attrs });
                assert(infos@ =~= unnamed_infos(fields@).take(i + 1));
                i += 1;
            }
            assert(infos@ =~= unnamed_infos(fields@));
            assert(unnamed_models(infos@) =~= ast@.fields->Unnamed_0);
            Ok(FieldInfo::Unnamed(infos))
        },
        Data::Struct(Fields::Unit) => {
            let infos: Vec<NamedFieldInfo<'a>> = Vec::new();
            assert(named_models(infos@) =~= ast@.fields->Named_0);
            Ok(FieldInfo::Named(infos))
        },
        _ => Err(GenerationError::UnsupportedDeclarationKind { span: ast.span }),
    }
}

} // verus!
