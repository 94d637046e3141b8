use derive_destructure::ast::{Data, Decl, FieldList, Generics, UnnamedField};
use derive_destructure::destructure::derive_destructure;
use derive_destructure::remove_impls::derive_remove_trait_impls;
use derive_destructure::token::render_source;

fn drop_checker_decl() -> Decl {
    Decl {
        name: "DropChecker".to_string(),
        generics: Generics { params: vec![], where_clause: None },
        data: Data::Struct(FieldList::Unnamed(vec![UnnamedField {
            ty: "Rc<Cell<bool>>".to_string(),
            span: 7,
        }])),
    }
}

#[test]
fn test_droptest_normal_drop() {
    // Left alone, an instance is dropped through its cleanup routine: neither
    // derivation's output is involved, and neither emits any call to it.
    let destructure_src = render_source(&derive_destructure(&drop_checker_decl()).unwrap());
    let remove_src = render_source(&derive_remove_trait_impls(&drop_checker_decl()).unwrap());
    assert!(!destructure_src.contains("drop"));
    assert!(!remove_src.contains("drop"));
}

#[test]
fn test_droptest_destructure() {
    let toks = derive_destructure(&drop_checker_decl()).unwrap();
    let src = render_source(&toks);
    assert_eq!(
        src,
        "impl DropChecker { #[inline(always)] fn destructure(self) -> ( Rc<Cell<bool>> , ) \
         { let maybe_uninit = ::std::mem::MaybeUninit::new(self); \
         unsafe { let self_ref = &*maybe_uninit.as_ptr(); \
         ( ::std::ptr::read(&self_ref.0) , ) } } }"
    );
    // The instance is placed in the no-cleanup cell before any field is read.
    assert!(src.find("MaybeUninit::new(self)").unwrap() < src.find("::std::ptr::read").unwrap());
    assert_eq!(toks.iter().filter(|t| t.text.contains("::std::ptr::read")).count(), 1);
}

#[test]
fn test_droptest_remove_trait_impls() {
    let toks = derive_remove_trait_impls(&drop_checker_decl()).unwrap();
    let src = render_source(&toks);
    assert_eq!(
        src,
        "struct DropCheckerWithoutTraitImpls ( Rc<Cell<bool>> , ) ; \
         impl DropChecker { #[inline(always)] fn remove_trait_impls(self) -> DropCheckerWithoutTraitImpls \
         { let maybe_uninit = ::std::mem::MaybeUninit::new(self); \
         unsafe { let self_ref = &*maybe_uninit.as_ptr(); \
         DropCheckerWithoutTraitImpls ( ::std::ptr::read(&self_ref.0) , ) } } }"
    );
    assert!(src.find("MaybeUninit::new(self)").unwrap() < src.find("::std::ptr::read").unwrap());
    assert_eq!(toks.iter().filter(|t| t.text.contains("::std::ptr::read")).count(), 1);
}
