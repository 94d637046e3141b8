use derive_destructure::ast::{Data, Decl, FieldList, GenericParam, Generics, NamedField,
    ParamKind, UnnamedField, Variant};
use derive_destructure::classify::{classify, Shape};
use derive_destructure::destructure::derive_destructure;
use derive_destructure::error::DeriveError;
use derive_destructure::numeral::u64_to_dec;
use derive_destructure::remove_impls::derive_remove_trait_impls;
use derive_destructure::token::{render_source, Token};

fn plain(name: &str, data: Data) -> Decl {
    Decl {
        name: name.to_string(),
        generics: Generics { params: vec![], where_clause: None },
        data,
    }
}

#[test]
fn test_classify_shapes() {
    let named = plain("A", Data::Struct(FieldList::Named(vec![NamedField {
        name: "x".to_string(),
        ty: "u8".to_string(),
        span: 1,
    }])));
    let positional = plain("B", Data::Struct(FieldList::Unnamed(vec![])));
    let unit = plain("C", Data::Struct(FieldList::Unit));
    let tagged = plain("D", Data::Enum(vec![Variant { name: "V".to_string(), fields: FieldList::Unit }]));
    let untagged = plain("E", Data::Union);
    assert_eq!(classify(&named), Shape::NamedRecord);
    assert_eq!(classify(&positional), Shape::PositionalRecord);
    assert_eq!(classify(&unit), Shape::UnitRecord);
    assert_eq!(classify(&tagged), Shape::TaggedUnion);
    assert_eq!(classify(&untagged), Shape::Unsupported);
}

#[test]
fn test_destructure_rejects_tagged_union() {
    let tagged = plain("E", Data::Enum(vec![Variant { name: "A".to_string(), fields: FieldList::Unit }]));
    let err = derive_destructure(&tagged).unwrap_err();
    assert_eq!(err, DeriveError::DestructureOnEnum);
    assert_eq!(
        err.message(),
        "#[derive(destructure)] doesn't work on enums, use #[derive(remove_trait_impls)] instead."
    );
}

#[test]
fn test_destructure_rejects_untagged_union() {
    let err = derive_destructure(&plain("U", Data::Union)).unwrap_err();
    assert_eq!(err, DeriveError::DestructureOnUnion);
    assert_eq!(err.message(), "#[derive(destructure)] doesn't work on unions.");
}

#[test]
fn test_remove_trait_impls_rejects_untagged_union() {
    let err = derive_remove_trait_impls(&plain("U", Data::Union)).unwrap_err();
    assert_eq!(err, DeriveError::RemoveTraitImplsOnUnion);
    assert_eq!(err.message(), "#[derive(remove_trait_impls)] doesn't work on unions.");
}

#[test]
fn test_single_field_yields_one_element_tuple() {
    let one = plain("One", Data::Struct(FieldList::Named(vec![NamedField {
        name: "only".to_string(),
        ty: "String".to_string(),
        span: 9,
    }])));
    let src = render_source(&derive_destructure(&one).unwrap());
    // A one-element tuple, not the bare field type: the comma stays.
    assert!(src.contains("-> ( String , )"));
}

#[test]
fn test_positional_order_preserved() {
    let three = plain("Triple", Data::Struct(FieldList::Unnamed(vec![
        UnnamedField { ty: "u8".to_string(), span: 1 },
        UnnamedField { ty: "u16".to_string(), span: 2 },
        UnnamedField { ty: "u32".to_string(), span: 3 },
    ])));
    let src = render_source(&derive_destructure(&three).unwrap());
    assert!(src.contains("-> ( u8 , u16 , u32 , )"));
    assert!(src.contains(
        "( ::std::ptr::read(&self_ref.0) , ::std::ptr::read(&self_ref.1) , ::std::ptr::read(&self_ref.2) , )"
    ));
}

#[test]
fn test_positional_binder_numerals() {
    // Eleven positional fields: the fresh local names run __0 through __10,
    // so two-digit numerals are exercised.
    let fields: Vec<UnnamedField> = (0..11u64).map(|i| UnnamedField {
        ty: "u8".to_string(),
        span: i,
    }).collect();
    let decl = Decl {
        name: "Wide".to_string(),
        generics: Generics { params: vec![], where_clause: None },
        data: Data::Enum(vec![Variant { name: "V".to_string(), fields: FieldList::Unnamed(fields) }]),
    };
    let src = render_source(&derive_remove_trait_impls(&decl).unwrap());
    assert!(src.contains("ref __10 ,"));
    assert!(src.contains("::std::ptr::read(__10) ,"));
}

#[test]
fn test_u64_to_dec_exact() {
    assert_eq!(u64_to_dec(0), "0");
    assert_eq!(u64_to_dec(7), "7");
    assert_eq!(u64_to_dec(10), "10");
    assert_eq!(u64_to_dec(905), "905");
    assert_eq!(u64_to_dec(u64::MAX), "18446744073709551615");
}

#[test]
fn test_render_source_joins_with_spaces() {
    let toks: Vec<Token> = vec![
        Token { text: "a".to_string(), span: None },
        Token { text: "b".to_string(), span: Some(3) },
    ];
    assert_eq!(render_source(&toks), "a b");
    let empty: Vec<Token> = vec![];
    assert_eq!(render_source(&empty), "");
}

#[test]
fn test_generics_do_not_change_acceptance() {
    let with_generics = Decl {
        name: "G".to_string(),
        generics: Generics {
            params: vec![GenericParam {
                kind: ParamKind::Type,
                name: "T".to_string(),
                bounds: Some("Clone".to_string()),
            }],
            where_clause: Some("T: Send".to_string()),
        },
        data: Data::Enum(vec![Variant { name: "A".to_string(), fields: FieldList::Unit }]),
    };
    let without = plain("G", Data::Enum(vec![Variant { name: "A".to_string(), fields: FieldList::Unit }]));
    assert_eq!(derive_destructure(&with_generics).is_ok(), derive_destructure(&without).is_ok());
    assert_eq!(
        derive_remove_trait_impls(&with_generics).is_ok(),
        derive_remove_trait_impls(&without).is_ok(),
    );
    assert!(derive_remove_trait_impls(&with_generics).is_ok());
}

#[test]
fn test_aux_type_name_suffix() {
    let d = plain("Inner", Data::Struct(FieldList::Unit));
    let src = render_source(&derive_remove_trait_impls(&d).unwrap());
    assert!(src.starts_with("struct InnerWithoutTraitImpls ;"));
}

#[test]
fn test_field_tokens_carry_spans_scaffolding_does_not() {
    let d = plain("S", Data::Struct(FieldList::Named(vec![NamedField {
        name: "n".to_string(),
        ty: "u64".to_string(),
        span: 42,
    }])));
    let toks = derive_destructure(&d).unwrap();
    for t in &toks {
        if t.text == "u64" || t.text.contains("::std::ptr::read") {
            assert_eq!(t.span, Some(42));
        } else {
            assert_eq!(t.span, None);
        }
    }
}
