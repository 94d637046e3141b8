use derive_destructure::ast::{Data, Decl, FieldList, Generics, NamedField};
use derive_destructure::destructure::derive_destructure;
use derive_destructure::remove_impls::derive_remove_trait_impls;
use derive_destructure::token::render_source;

fn simple_foo_decl() -> Decl {
    Decl {
        name: "Foo".to_string(),
        generics: Generics { params: vec![], where_clause: None },
        data: Data::Struct(FieldList::Named(vec![
            NamedField { name: "x".to_string(), ty: "i64".to_string(), span: 1 },
            NamedField { name: "y".to_string(), ty: "f32".to_string(), span: 2 },
        ])),
    }
}

#[test]
fn simple_test_simple_destructure() {
    let toks = derive_destructure(&simple_foo_decl()).unwrap();
    assert_eq!(
        render_source(&toks),
        "impl Foo { #[inline(always)] fn destructure(self) -> ( i64 , f32 , ) \
         { let maybe_uninit = ::std::mem::MaybeUninit::new(self); \
         unsafe { let self_ref = &*maybe_uninit.as_ptr(); \
         ( ::std::ptr::read(&self_ref.x) , ::std::ptr::read(&self_ref.y) , ) } } }"
    );
    let spans: Vec<Option<u64>> = toks.iter().filter(|t| t.text.starts_with("::std::ptr::read")).map(|t| t.span).collect();
    assert_eq!(spans, vec![Some(1), Some(2)]);
}

#[test]
fn simple_test_simple_remove_trait_impls() {
    let toks = derive_remove_trait_impls(&simple_foo_decl()).unwrap();
    assert_eq!(
        render_source(&toks),
        "struct FooWithoutTraitImpls { x: i64 , y: f32 , } \
         impl Foo { #[inline(always)] fn remove_trait_impls(self) -> FooWithoutTraitImpls \
         { let maybe_uninit = ::std::mem::MaybeUninit::new(self); \
         unsafe { let self_ref = &*maybe_uninit.as_ptr(); \
         FooWithoutTraitImpls { x: ::std::ptr::read(&self_ref.x) , y: ::std::ptr::read(&self_ref.y) , } } } }"
    );
    let spans: Vec<Option<u64>> = toks.iter().filter(|t| t.text.contains("::std::ptr::read")).map(|t| t.span).collect();
    assert_eq!(spans, vec![Some(1), Some(2)]);
}
