use derive_destructure::ast::{Data, Decl, FieldList, GenericParam, Generics, NamedField,
    ParamKind, UnnamedField};
use derive_destructure::destructure::derive_destructure;
use derive_destructure::remove_impls::derive_remove_trait_impls;
use derive_destructure::token::render_source;

fn generic_foo_decl() -> Decl {
    Decl {
        name: "Foo".to_string(),
        generics: Generics {
            params: vec![
                GenericParam { kind: ParamKind::Lifetime, name: "'a".to_string(), bounds: None },
                GenericParam { kind: ParamKind::Lifetime, name: "'b".to_string(), bounds: None },
                GenericParam { kind: ParamKind::Type, name: "T".to_string(), bounds: None },
            ],
            where_clause: None,
        },
        data: Data::Struct(FieldList::Named(vec![
            NamedField { name: "some_ref".to_string(), ty: "&'a i64".to_string(), span: 1 },
            NamedField { name: "some_ref_mut".to_string(), ty: "&'b mut i32".to_string(), span: 2 },
            NamedField { name: "some_val".to_string(), ty: "T".to_string(), span: 3 },
        ])),
    }
}

fn trait_bounded_decl() -> Decl {
    Decl {
        name: "TraitBounded".to_string(),
        generics: Generics {
            params: vec![GenericParam {
                kind: ParamKind::Type,
                name: "T".to_string(),
                bounds: Some("SomeTrait".to_string()),
            }],
            where_clause: None,
        },
        data: Data::Struct(FieldList::Unnamed(vec![UnnamedField {
            ty: "T".to_string(),
            span: 4,
        }])),
    }
}

fn trait_bounded2_decl() -> Decl {
    Decl {
        name: "TraitBounded2".to_string(),
        generics: Generics {
            params: vec![
                GenericParam { kind: ParamKind::Lifetime, name: "'a".to_string(), bounds: None },
                GenericParam { kind: ParamKind::Lifetime, name: "'b".to_string(), bounds: None },
                GenericParam {
                    kind: ParamKind::Type,
                    name: "T".to_string(),
                    bounds: Some("SomeTrait + 'b".to_string()),
                },
            ],
            where_clause: Some("'b: 'a".to_string()),
        },
        data: Data::Struct(FieldList::Named(vec![NamedField {
            name: "r".to_string(),
            ty: "&'a &'b T".to_string(),
            span: 5,
        }])),
    }
}

#[test]
fn generic_test_simple_destructure() {
    let toks = derive_destructure(&generic_foo_decl()).unwrap();
    let src = render_source(&toks);
    assert_eq!(
        src,
        "impl < 'a , 'b , T , > Foo < 'a , 'b , T , > \
         { #[inline(always)] fn destructure(self) -> ( &'a i64 , &'b mut i32 , T , ) \
         { let maybe_uninit = ::std::mem::MaybeUninit::new(self); \
         unsafe { let self_ref = &*maybe_uninit.as_ptr(); \
         ( ::std::ptr::read(&self_ref.some_ref) , ::std::ptr::read(&self_ref.some_ref_mut) , \
         ::std::ptr::read(&self_ref.some_val) , ) } } }"
    );
    // The references' types and the exclusive reference pass through verbatim.
    assert!(src.contains("&'a i64"));
    assert!(src.contains("&'b mut i32"));
    let spans: Vec<Option<u64>> = toks.iter().filter(|t| t.text.contains("::std::ptr::read")).map(|t| t.span).collect();
    assert_eq!(spans, vec![Some(1), Some(2), Some(3)]);
}

#[test]
fn generic_test_simple_remove_trait_impls() {
    let toks = derive_remove_trait_impls(&generic_foo_decl()).unwrap();
    let src = render_source(&toks);
    assert_eq!(
        src,
        "struct FooWithoutTraitImpls < 'a , 'b , T , > \
         { some_ref: &'a i64 , some_ref_mut: &'b mut i32 , some_val: T , } \
         impl < 'a , 'b , T , > Foo < 'a , 'b , T , > \
         { #[inline(always)] fn remove_trait_impls(self) -> FooWithoutTraitImpls < 'a , 'b , T , > \
         { let maybe_uninit = ::std::mem::MaybeUninit::new(self); \
         unsafe { let self_ref = &*maybe_uninit.as_ptr(); \
         FooWithoutTraitImpls { some_ref: ::std::ptr::read(&self_ref.some_ref) , \
         some_ref_mut: ::std::ptr::read(&self_ref.some_ref_mut) , \
         some_val: ::std::ptr::read(&self_ref.some_val) , } } } }"
    );
    assert!(src.contains("some_ref: &'a i64"));
    assert!(src.contains("some_ref_mut: &'b mut i32"));
    assert!(src.contains("some_val: T"));
}

#[test]
fn test_trait_bounded_destructure() {
    let toks = derive_destructure(&trait_bounded_decl()).unwrap();
    assert_eq!(
        render_source(&toks),
        "impl < T : SomeTrait , > TraitBounded < T , > \
         { #[inline(always)] fn destructure(self) -> ( T , ) \
         { let maybe_uninit = ::std::mem::MaybeUninit::new(self); \
         unsafe { let self_ref = &*maybe_uninit.as_ptr(); \
         ( ::std::ptr::read(&self_ref.0) , ) } } }"
    );
}

#[test]
fn test_trait_bounded_remove_trait_impls() {
    let toks = derive_remove_trait_impls(&trait_bounded_decl()).unwrap();
    assert_eq!(
        render_source(&toks),
        "struct TraitBoundedWithoutTraitImpls < T : SomeTrait , > ( T , ) ; \
         impl < T : SomeTrait , > TraitBounded < T , > \
         { #[inline(always)] fn remove_trait_impls(self) -> TraitBoundedWithoutTraitImpls < T , > \
         { let maybe_uninit = ::std::mem::MaybeUninit::new(self); \
         unsafe { let self_ref = &*maybe_uninit.as_ptr(); \
         TraitBoundedWithoutTraitImpls ( ::std::ptr::read(&self_ref.0) , ) } } }"
    );
}

#[test]
fn test_trait_bounded2_destructure() {
    let toks = derive_destructure(&trait_bounded2_decl()).unwrap();
    assert_eq!(
        render_source(&toks),
        "impl < 'a , 'b , T : SomeTrait + 'b , > TraitBounded2 < 'a , 'b , T , > where 'b: 'a \
         { #[inline(always)] fn destructure(self) -> ( &'a &'b T , ) \
         { let maybe_uninit = ::std::mem::MaybeUninit::new(self); \
         unsafe { let self_ref = &*maybe_uninit.as_ptr(); \
         ( ::std::ptr::read(&self_ref.r) , ) } } }"
    );
}

#[test]
fn test_trait_bounded2_remove_trait_impls() {
    let toks = derive_remove_trait_impls(&trait_bounded2_decl()).unwrap();
    assert_eq!(
        render_source(&toks),
        "struct TraitBounded2WithoutTraitImpls < 'a , 'b , T : SomeTrait + 'b , > where 'b: 'a \
         { r: &'a &'b T , } \
         impl < 'a , 'b , T : SomeTrait + 'b , > TraitBounded2 < 'a , 'b , T , > where 'b: 'a \
         { #[inline(always)] fn remove_trait_impls(self) -> TraitBounded2WithoutTraitImpls < 'a , 'b , T , > \
         { let maybe_uninit = ::std::mem::MaybeUninit::new(self); \
         unsafe { let self_ref = &*maybe_uninit.as_ptr(); \
         TraitBounded2WithoutTraitImpls { r: ::std::ptr::read(&self_ref.r) , } } } }"
    );
}
