use constant::assembly;
use constant::{
    generate_named, generate_unnamed, get_struct_field_names, Data, FieldInfo, Fields,
    GenerationError, Generics, NamedField, Span, TypeDeclaration, TypeExpr, TypeForm,
    UnnamedField,
};

fn path(text: &str, id: usize) -> TypeExpr {
    TypeExpr::path(text, Span::new(id))
}

fn default_of(ty: &str) -> String {
    format!("<{ty} as ::constant::Constdef>::DEFAULT")
}

fn impls(header: (&str, &str, &str), constructor: &str) -> String {
    let (impl_generics, subject, where_clause) = header;
    format!(
        "impl{impl_generics} {subject}{where_clause} \
         {{ pub const fn default() -> Self {{ {constructor} }} }} \
         impl{impl_generics} ::core::default::Default for {subject}{where_clause} \
         {{ fn default() -> Self {{ Self::default() }} }} \
         impl{impl_generics} ::constant::Constdef for {subject}{where_clause} \
         {{ const DEFAULT: Self = Self::default(); }}"
    )
}

fn plain(name: &str, data: Data) -> TypeDeclaration {
    TypeDeclaration::new(name, Generics::none(), data, Span::new(1000))
}

#[test]
fn tuple_struct_is_constructed_by_position() {
    let decl = plain(
        "Pair",
        Data::Struct(Fields::Unnamed(vec![
            UnnamedField::new(path("u8", 1)),
            UnnamedField::new(path("String", 2)),
        ])),
    );
    assert_eq!(
        assembly::derive(&decl).unwrap(),
        impls(
            ("", "Pair", ""),
            &format!("Self({}, {})", default_of("u8"), default_of("String"))
        )
    );
}

#[test]
fn tuple_struct_of_one_field_has_one_argument() {
    let decl = plain(
        "Wrapper",
        Data::Struct(Fields::Unnamed(vec![UnnamedField::new(path("u8", 1))])),
    );
    assert_eq!(
        assembly::derive(&decl).unwrap(),
        impls(("", "Wrapper", ""), &format!("Self({})", default_of("u8")))
    );
}

#[test]
fn struct_without_fields_has_a_constructor_without_arguments() {
    assert_eq!(
        assembly::derive(&plain("Named", Data::Struct(Fields::Named(vec![])))).unwrap(),
        impls(("", "Named", ""), "Self {}")
    );
    assert_eq!(
        assembly::derive(&plain("Positional", Data::Struct(Fields::Unnamed(vec![])))).unwrap(),
        impls(("", "Positional", ""), "Self()")
    );
    assert_eq!(
        assembly::derive(&plain("Unit", Data::Struct(Fields::Unit))).unwrap(),
        impls(("", "Unit", ""), "Self {}")
    );
}

#[test]
fn generics_and_where_clause_stand_on_all_three_code_units() {
    let decl = TypeDeclaration::new(
        "Holder",
        Generics::new("<'a, T: Clone, const N: usize>", "<'a, T, N>", "where T: 'a"),
        Data::Struct(Fields::Named(vec![NamedField::new("items", path("Vec<&'a T>", 1))])),
        Span::new(0),
    );
    assert_eq!(
        assembly::derive(&decl).unwrap(),
        "impl<'a, T: Clone, const N: usize> Holder<'a, T, N> where T: 'a \
         { pub const fn default() -> Self { Self { \
         items: <Vec<&'a T> as ::constant::Constdef>::DEFAULT } } } \
         impl<'a, T: Clone, const N: usize> ::core::default::Default for Holder<'a, T, N> \
         where T: 'a { fn default() -> Self { Self::default() } } \
         impl<'a, T: Clone, const N: usize> ::constant::Constdef for Holder<'a, T, N> \
         where T: 'a { const DEFAULT: Self = Self::default(); }"
    );
}

#[test]
fn generics_without_a_where_clause_leave_no_gap() {
    let decl = TypeDeclaration::new(
        "Holder",
        Generics::new("<T>", "<T>", ""),
        Data::Struct(Fields::Unnamed(vec![])),
        Span::new(0),
    );
    assert_eq!(
        assembly::derive(&decl).unwrap(),
        impls(("<T>", "Holder<T>", ""), "Self()")
    );
}

#[test]
fn deriving_twice_gives_the_same_text() {
    let declare = || {
        TypeDeclaration::new(
            "Twice",
            Generics::new("<T>", "<T>", "where T: Copy"),
            Data::Struct(Fields::Named(vec![
                NamedField::new("a", TypeExpr::array(path("T", 1), Some(3), Span::new(2))),
                NamedField::new(
                    "b",
                    TypeExpr::tuple(vec![path("u8", 3), path("bool", 4)], Span::new(5)),
                ),
            ])),
            Span::new(0),
        )
    };
    let decl = declare();
    let first = assembly::derive(&decl);
    let second = assembly::derive(&decl);
    assert!(first.is_ok());
    assert_eq!(first, second);
    assert_eq!(assembly::derive(&declare()), first);
}

#[test]
fn refusing_twice_gives_the_same_error() {
    let decl = plain(
        "Twice",
        Data::Struct(Fields::Unnamed(vec![UnnamedField::new(TypeExpr::other(
            TypeForm::Pointer,
            Span::new(9),
        ))])),
    );
    let first = assembly::derive(&decl);
    assert_eq!(
        first,
        Err(GenerationError::UnsupportedFieldType { span: Span::new(9) })
    );
    assert_eq!(assembly::derive(&decl), first);
}

#[test]
fn initialisers_stand_in_declaration_order() {
    let names = ["zeta", "alpha", "mid", "beta", "omega"];
    let mut fields = Vec::new();
    for (i, name) in names.iter().enumerate() {
        fields.push(NamedField::new(name, path(&format!("T{i}"), i)));
    }
    let text = assembly::derive(&plain("Ordered", Data::Struct(Fields::Named(fields)))).unwrap();
    let mut last = 0;
    for (i, name) in names.iter().enumerate() {
        let init = format!("{name}: {}", default_of(&format!("T{i}")));
        let at = text.find(&init).unwrap();
        assert!(at >= last);
        last = at + init.len();
    }
    assert_eq!(
        text,
        impls(
            ("", "Ordered", ""),
            &format!(
                "Self {{ zeta: {}, alpha: {}, mid: {}, beta: {}, omega: {} }}",
                default_of("T0"),
                default_of("T1"),
                default_of("T2"),
                default_of("T3"),
                default_of("T4")
            )
        )
    );
}

#[test]
fn positions_stand_in_declaration_order() {
    let fields = vec![
        UnnamedField::new(path("C", 1)),
        UnnamedField::new(path("A", 2)),
        UnnamedField::new(path("B", 3)),
    ];
    assert_eq!(
        assembly::derive(&plain("Ordered", Data::Struct(Fields::Unnamed(fields)))).unwrap(),
        impls(
            ("", "Ordered", ""),
            &format!(
                "Self({}, {}, {})",
                default_of("C"),
                default_of("A"),
                default_of("B")
            )
        )
    );
}

#[test]
fn enum_is_refused() {
    assert_eq!(
        assembly::derive(&plain("Choice", Data::Enum)),
        Err(GenerationError::UnsupportedDeclarationKind { span: Span::new(1000) })
    );
}

#[test]
fn union_is_refused() {
    assert_eq!(
        assembly::derive(&plain("Overlay", Data::Union)),
        Err(GenerationError::UnsupportedDeclarationKind { span: Span::new(1000) })
    );
}

#[test]
fn named_field_of_reference_type_is_refused_at_its_type() {
    let decl = plain(
        "Borrowing",
        Data::Struct(Fields::Named(vec![
            NamedField::new("count", path("usize", 1)),
            NamedField::new("text", TypeExpr::other(TypeForm::Reference, Span::new(2))),
            NamedField::new("rest", path("u8", 3)),
        ])),
    );
    assert_eq!(
        assembly::derive(&decl),
        Err(GenerationError::UnsupportedFieldType { span: Span::new(2) })
    );
}

#[test]
fn unnamed_field_of_trait_object_type_is_refused_at_its_type() {
    let decl = plain(
        "Dynamic",
        Data::Struct(Fields::Unnamed(vec![
            UnnamedField::new(path("usize", 1)),
            UnnamedField::new(TypeExpr::other(TypeForm::TraitObject, Span::new(2))),
        ])),
    );
    assert_eq!(
        assembly::derive(&decl),
        Err(GenerationError::UnsupportedFieldType { span: Span::new(2) })
    );
}

#[test]
fn field_of_function_pointer_type_is_refused_at_its_type() {
    let decl = plain(
        "Callback",
        Data::Struct(Fields::Named(vec![NamedField::new(
            "call",
            TypeExpr::other(TypeForm::BareFn, Span::new(8)),
        )])),
    );
    assert_eq!(
        assembly::derive(&decl),
        Err(GenerationError::UnsupportedFieldType { span: Span::new(8) })
    );
}

#[test]
fn first_refused_field_gives_the_error() {
    let decl = plain(
        "Several",
        Data::Struct(Fields::Named(vec![
            NamedField::new("fine", path("u8", 1)),
            NamedField::new(
                "nested",
                TypeExpr::tuple(
                    vec![path("u8", 2), TypeExpr::other(TypeForm::Slice, Span::new(3))],
                    Span::new(4),
                ),
            ),
            NamedField::new("plain", TypeExpr::other(TypeForm::Reference, Span::new(5))),
        ])),
    );
    assert_eq!(
        assembly::derive(&decl),
        Err(GenerationError::UnsupportedFieldType { span: Span::new(3) })
    );
}

#[test]
fn generate_named_takes_the_fields_it_is_given() {
    let decl = plain(
        "Point",
        Data::Struct(Fields::Named(vec![
            NamedField::new("x", path("i32", 1)),
            NamedField::new("y", path("i32", 2)),
        ])),
    );
    let fields = match get_struct_field_names(&decl) {
        Ok(FieldInfo::Named(fields)) => fields,
        other => panic!("not named fields: {:?}", other),
    };
    assert_eq!(
        generate_named(fields, &decl).unwrap(),
        impls(
            ("", "Point", ""),
            &format!("Self {{ x: {}, y: {} }}", default_of("i32"), default_of("i32"))
        )
    );
    assert_eq!(
        generate_named(vec![], &decl).unwrap(),
        impls(("", "Point", ""), "Self {}")
    );
}

#[test]
fn generate_unnamed_takes_the_fields_it_is_given() {
    let decl = plain(
        "Point",
        Data::Struct(Fields::Unnamed(vec![
            UnnamedField::new(path("i32", 1)),
            UnnamedField::new(TypeExpr::array(path("i32", 2), None, Span::new(3))),
        ])),
    );
    let mut fields = match get_struct_field_names(&decl) {
        Ok(FieldInfo::Unnamed(fields)) => fields,
        other => panic!("not positional fields: {:?}", other),
    };
    assert_eq!(
        generate_unnamed(
            match get_struct_field_names(&decl) {
                Ok(FieldInfo::Unnamed(fields)) => fields,
                other => panic!("not positional fields: {:?}", other),
            },
            &decl
        ),
        Err(GenerationError::UnsupportedFieldType { span: Span::new(3) })
    );
    fields.pop();
    assert_eq!(
        generate_unnamed(fields, &decl).unwrap(),
        impls(("", "Point", ""), &format!("Self({})", default_of("i32")))
    );
}
