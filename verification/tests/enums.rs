use derive_destructure::ast::{Data, Decl, FieldList, GenericParam, Generics, NamedField,
    ParamKind, UnnamedField, Variant};
use derive_destructure::remove_impls::derive_remove_trait_impls;
use derive_destructure::token::render_source;

fn simple_enum_decl() -> Decl {
    Decl {
        name: "Simple".to_string(),
        generics: Generics { params: vec![], where_clause: None },
        data: Data::Enum(vec![
            Variant { name: "A".to_string(), fields: FieldList::Unit },
            Variant { name: "B".to_string(), fields: FieldList::Unit },
            Variant { name: "C".to_string(), fields: FieldList::Unit },
        ]),
    }
}

fn generic_enum_decl() -> Decl {
    Decl {
        name: "GenericEnum".to_string(),
        generics: Generics {
            params: vec![GenericParam {
                kind: ParamKind::Type,
                name: "T".to_string(),
                bounds: Some("SomeTrait".to_string()),
            }],
            where_clause: None,
        },
        data: Data::Enum(vec![
            Variant {
                name: "A".to_string(),
                fields: FieldList::Unnamed(vec![UnnamedField { ty: "T".to_string(), span: 1 }]),
            },
            Variant {
                name: "B".to_string(),
                fields: FieldList::Unnamed(vec![
                    UnnamedField { ty: "T".to_string(), span: 2 },
                    UnnamedField { ty: "f64".to_string(), span: 3 },
                ]),
            },
            Variant {
                name: "C".to_string(),
                fields: FieldList::Named(vec![
                    NamedField { name: "x".to_string(), ty: "String".to_string(), span: 4 },
                    NamedField { name: "y".to_string(), ty: "T".to_string(), span: 5 },
                ]),
            },
            Variant { name: "D".to_string(), fields: FieldList::Unit },
        ]),
    }
}

#[test]
fn test_simple() {
    let toks = derive_remove_trait_impls(&simple_enum_decl()).unwrap();
    assert_eq!(
        render_source(&toks),
        "enum SimpleWithoutTraitImpls { A , B , C , } \
         impl Simple { #[inline(always)] fn remove_trait_impls(self) -> SimpleWithoutTraitImpls \
         { let maybe_uninit = ::std::mem::MaybeUninit::new(self); \
         unsafe { match &*maybe_uninit.as_ptr() { \
         Simple :: A => SimpleWithoutTraitImpls :: A , \
         Simple :: B => SimpleWithoutTraitImpls :: B , \
         Simple :: C => SimpleWithoutTraitImpls :: C , } } } }"
    );
}

#[test]
fn test_generic_a() {
    let src = render_source(&derive_remove_trait_impls(&generic_enum_decl()).unwrap());
    assert!(src.contains(
        "GenericEnum :: A ( ref __0 , ) => GenericEnumWithoutTraitImpls :: A ( ::std::ptr::read(__0) , ) ,"
    ));
}

#[test]
fn test_generic_b() {
    let src = render_source(&derive_remove_trait_impls(&generic_enum_decl()).unwrap());
    assert!(src.contains("A ( T , ) , B ( T , f64 , ) , C { x: String , y: T , } , D ,"));
    assert!(src.contains(
        "GenericEnum :: B ( ref __0 , ref __1 , ) => GenericEnumWithoutTraitImpls :: B \
         ( ::std::ptr::read(__0) , ::std::ptr::read(__1) , ) ,"
    ));
}

#[test]
fn test_generic_c() {
    let src = render_source(&derive_remove_trait_impls(&generic_enum_decl()).unwrap());
    assert!(src.contains("enum GenericEnumWithoutTraitImpls < T : SomeTrait , >"));
    assert!(src.contains(
        "GenericEnum :: C { ref x , ref y , } => GenericEnumWithoutTraitImpls :: C \
         { x: ::std::ptr::read(x) , y: ::std::ptr::read(y) , } ,"
    ));
}

#[test]
fn test_generic_d() {
    let src = render_source(&derive_remove_trait_impls(&generic_enum_decl()).unwrap());
    assert!(src.contains("GenericEnum :: D => GenericEnumWithoutTraitImpls :: D ,"));
}
