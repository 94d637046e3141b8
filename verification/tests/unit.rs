use derive_destructure::ast::{Data, Decl, FieldList, Generics};
use derive_destructure::destructure::derive_destructure;
use derive_destructure::remove_impls::derive_remove_trait_impls;
use derive_destructure::token::render_source;

fn unit_decl(name: &str, fields: FieldList) -> Decl {
    Decl {
        name: name.to_string(),
        generics: Generics { params: vec![], where_clause: None },
        data: Data::Struct(fields),
    }
}

#[test]
fn test_foo_destructure() {
    let toks = derive_destructure(&unit_decl("Foo", FieldList::Unit)).unwrap();
    assert_eq!(
        render_source(&toks),
        "impl Foo { #[inline(always)] fn destructure(self) \
         { let _ = ::std::mem::MaybeUninit::new(self); } }"
    );
}

#[test]
fn test_foo_remove_trait_impls() {
    let toks = derive_remove_trait_impls(&unit_decl("Foo", FieldList::Unit)).unwrap();
    assert_eq!(
        render_source(&toks),
        "struct FooWithoutTraitImpls ; \
         impl Foo { #[inline(always)] fn remove_trait_impls(self) -> FooWithoutTraitImpls \
         { let _ = ::std::mem::MaybeUninit::new(self); FooWithoutTraitImpls } }"
    );
}

#[test]
fn test_bar_destructure() {
    let toks = derive_destructure(&unit_decl("Bar", FieldList::Unnamed(vec![]))).unwrap();
    assert_eq!(
        render_source(&toks),
        "impl Bar { #[inline(always)] fn destructure(self) -> ( ) \
         { let maybe_uninit = ::std::mem::MaybeUninit::new(self); \
         unsafe { let self_ref = &*maybe_uninit.as_ptr(); ( ) } } }"
    );
}

#[test]
fn test_bar_remove_trait_impls() {
    let toks = derive_remove_trait_impls(&unit_decl("Bar", FieldList::Unnamed(vec![]))).unwrap();
    assert_eq!(
        render_source(&toks),
        "struct BarWithoutTraitImpls ( ) ; \
         impl Bar { #[inline(always)] fn remove_trait_impls(self) -> BarWithoutTraitImpls \
         { let maybe_uninit = ::std::mem::MaybeUninit::new(self); \
         unsafe { let self_ref = &*maybe_uninit.as_ptr(); BarWithoutTraitImpls ( ) } } }"
    );
}

#[test]
fn test_baz_destructure() {
    let toks = derive_destructure(&unit_decl("Baz", FieldList::Named(vec![]))).unwrap();
    assert_eq!(
        render_source(&toks),
        "impl Baz { #[inline(always)] fn destructure(self) -> ( ) \
         { let maybe_uninit = ::std::mem::MaybeUninit::new(self); \
         unsafe { let self_ref = &*maybe_uninit.as_ptr(); ( ) } } }"
    );
}

#[test]
fn test_baz_remove_trait_impls() {
    let toks = derive_remove_trait_impls(&unit_decl("Baz", FieldList::Named(vec![]))).unwrap();
    assert_eq!(
        render_source(&toks),
        "struct BazWithoutTraitImpls { } \
         impl Baz { #[inline(always)] fn remove_trait_impls(self) -> BazWithoutTraitImpls \
         { let maybe_uninit = ::std::mem::MaybeUninit::new(self); \
         unsafe { let self_ref = &*maybe_uninit.as_ptr(); BazWithoutTraitImpls { } } } }"
    );
}
