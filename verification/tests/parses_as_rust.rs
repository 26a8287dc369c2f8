use constant::assembly;
use constant::{
    generate_field_expr, Data, Fields, Generics, NamedField, Span, TypeDeclaration, TypeExpr,
    UnnamedField,
};
use quote::ToTokens;
use syn::{Expr, File, ImplItem, Item, ItemImpl, Member, Stmt};

fn path(text: &str) -> TypeExpr {
    TypeExpr::path(text, Span::new(0))
}

fn tokens_of(source: &str) -> String {
    syn::parse_str::<File>(source).unwrap().to_token_stream().to_string()
}

fn impls_of(code: &str) -> Vec<ItemImpl> {
    let file = syn::parse_str::<File>(code).unwrap();
    file.items
        .into_iter()
        .map(|item| match item {
            Item::Impl(item) => item,
            other => panic!("not an impl: {}", other.to_token_stream()),
        })
        .collect()
}

fn constructor_of(item: &ItemImpl) -> Expr {
    let method = match &item.items[0] {
        ImplItem::Method(method) => method,
        other => panic!("not a method: {}", other.to_token_stream()),
    };
    assert!(method.sig.constness.is_some());
    assert_eq!(method.sig.ident, "default");
    match &method.block.stmts[0] {
        Stmt::Expr(expr) => expr.clone(),
        other => panic!("not an expression: {}", other.to_token_stream()),
    }
}

#[test]
fn derived_code_is_three_impl_blocks() {
    let decl = TypeDeclaration::new(
        "Holder",
        Generics::new("< 'a , T : Clone >", "< 'a , T >", "where T : 'a"),
        Data::Struct(Fields::Named(vec![
            NamedField::new("count", path("usize")),
            NamedField::new("items", path("Vec < & 'a T >")),
            NamedField::new(
                "grid",
                TypeExpr::array(
                    TypeExpr::tuple(vec![path("u8"), path("bool")], Span::new(1)),
                    Some(2),
                    Span::new(2),
                ),
            ),
        ])),
        Span::new(3),
    );
    let code = assembly::derive(&decl).unwrap();
    assert_eq!(
        tokens_of(&code),
        tokens_of(
            "impl<'a, T: Clone> Holder<'a, T> where T: 'a {
                 pub const fn default() -> Self {
                     Self {
                         count: <usize as ::constant::Constdef>::DEFAULT,
                         items: <Vec<&'a T> as ::constant::Constdef>::DEFAULT,
                         grid: [
                             (
                                 <u8 as ::constant::Constdef>::DEFAULT,
                                 <bool as ::constant::Constdef>::DEFAULT
                             ),
                             (
                                 <u8 as ::constant::Constdef>::DEFAULT,
                                 <bool as ::constant::Constdef>::DEFAULT
                             )
                         ]
                     }
                 }
             }
             impl<'a, T: Clone> ::core::default::Default for Holder<'a, T> where T: 'a {
                 fn default() -> Self {
                     Self::default()
                 }
             }
             impl<'a, T: Clone> ::constant::Constdef for Holder<'a, T> where T: 'a {
                 const DEFAULT: Self = Self::default();
             }"
        )
    );
    let impls = impls_of(&code);
    assert_eq!(impls.len(), 3);
    assert!(impls[0].trait_.is_none());
    assert_eq!(
        impls[1].trait_.as_ref().unwrap().1.to_token_stream().to_string(),
        ":: core :: default :: Default"
    );
    assert_eq!(
        impls[2].trait_.as_ref().unwrap().1.to_token_stream().to_string(),
        ":: constant :: Constdef"
    );
}

#[test]
fn named_constructor_sets_every_field_once_and_in_order() {
    let names = ["userid", "verified", "name", "friends"];
    let types = ["u64", "bool", "String", "Vec<String>"];
    let mut fields = Vec::new();
    for (name, ty) in names.iter().zip(types.iter()) {
        fields.push(NamedField::new(name, path(ty)));
    }
    let decl = TypeDeclaration::new(
        "Friend",
        Generics::none(),
        Data::Struct(Fields::Named(fields)),
        Span::new(0),
    );
    let code = assembly::derive(&decl).unwrap();
    let constructor = match constructor_of(&impls_of(&code)[0]) {
        Expr::Struct(constructor) => constructor,
        other => panic!("not a struct expression: {}", other.to_token_stream()),
    };
    let set: Vec<String> = constructor
        .fields
        .iter()
        .map(|field| match &field.member {
            Member::Named(name) => name.to_string(),
            Member::Unnamed(index) => index.index.to_string(),
        })
        .collect();
    assert_eq!(set, names);
    for (field, ty) in constructor.fields.iter().zip(types.iter()) {
        assert_eq!(
            field.expr.to_token_stream().to_string(),
            tokens_of_expr(&format!("<{ty} as ::constant::Constdef>::DEFAULT"))
        );
    }
}

fn tokens_of_expr(source: &str) -> String {
    syn::parse_str::<Expr>(source).unwrap().to_token_stream().to_string()
}

#[test]
fn unnamed_constructor_has_one_argument_for_each_field() {
    let decl = TypeDeclaration::new(
        "Triple",
        Generics::none(),
        Data::Struct(Fields::Unnamed(vec![
            UnnamedField::new(path("u8")),
            UnnamedField::new(TypeExpr::tuple(vec![path("u16")], Span::new(1))),
            UnnamedField::new(path("u32")),
        ])),
        Span::new(0),
    );
    let code = assembly::derive(&decl).unwrap();
    let call = match constructor_of(&impls_of(&code)[0]) {
        Expr::Call(call) => call,
        other => panic!("not a call: {}", other.to_token_stream()),
    };
    assert_eq!(call.args.len(), 3);
    match &call.args[1] {
        Expr::Tuple(tuple) => assert_eq!(tuple.elems.len(), 1),
        other => panic!("not a tuple: {}", other.to_token_stream()),
    }
}

#[test]
fn array_literal_has_as_many_elements_as_the_array() {
    for len in [0u64, 1, 2, 7, 65536] {
        let ty = TypeExpr::array(path("usize"), Some(len), Span::new(1));
        let literal = generate_field_expr(&ty).unwrap();
        let array = match syn::parse_str::<Expr>(&literal).unwrap() {
            Expr::Array(array) => array,
            other => panic!("not an array: {}", other.to_token_stream()),
        };
        assert_eq!(array.elems.len() as u64, len);
        assert!(!array.elems.trailing_punct());
        let copy = tokens_of_expr("<usize as ::constant::Constdef>::DEFAULT");
        assert!(array.elems.iter().all(|elem| elem.to_token_stream().to_string() == copy));
    }
}

#[test]
fn tuple_literal_has_as_many_elements_as_the_tuple() {
    for len in 0..5 {
        let ty = TypeExpr::tuple((0..len).map(|_| path("u8")).collect(), Span::new(1));
        let literal = generate_field_expr(&ty).unwrap();
        let tuple = match syn::parse_str::<Expr>(&literal).unwrap() {
            Expr::Tuple(tuple) => tuple,
            other => panic!("not a tuple: {}", other.to_token_stream()),
        };
        assert_eq!(tuple.elems.len(), len);
    }
}
