//! The shape classifier: dispatches a declaration into one of the supported
//! shapes, or marks it unsupported.

use vstd::prelude::*;
use crate::ast::{Data, Decl, FieldList, SpecData, SpecDecl, SpecFieldList};

verus! {

/// The shape of a declaration.
#[derive(Clone, Copy, PartialEq, Eq, Structural, Debug)]
pub enum Shape {
    NamedRecord,
    PositionalRecord,
    UnitRecord,
    TaggedUnion,
    Unsupported,
}

/// The shape of one field list: a record with named fields, a record with
/// positional fields (zero or more), or a unit record.
pub open spec fn spec_classify_fields(fl: SpecFieldList) -> Shape {
    match fl {
        SpecFieldList::Named(_) => Shape::NamedRecord,
        SpecFieldList::Unnamed(_) => Shape::PositionalRecord,
        SpecFieldList::Unit => Shape::UnitRecord,
    }
}

/// The shape of a whole declaration. A record takes the shape of its field
/// list; a tagged union is its own shape (each variant's field list is
/// classified by `spec_classify_fields`); an untagged union of fields is
/// unsupported.
pub open spec fn spec_classify(d: SpecDecl) -> Shape {
    match d.data {
        SpecData::Struct(fl) => spec_classify_fields(fl),
        SpecData::Enum(_) => Shape::TaggedUnion,
        SpecData::Union => Shape::Unsupported,
    }
}

/// Classifies one field list.
pub fn classify_fields(fl: &FieldList) -> (s: Shape)
    ensures
        s == spec_classify_fields(fl@),
{
    match fl {
        FieldList::Named(_) => Shape::NamedRecord,
        FieldList::Unnamed(_) => Shape::PositionalRecord,
        FieldList::Unit => Shape::UnitRecord,
    }
}

/// Classifies a declaration.
pub fn classify(d: &Decl) -> (s: Shape)
    ensures
        s == spec_classify(d@),
{
    match &d.data {
        Data::Struct(fl) => classify_fields(fl),
        Data::Enum(_) => Shape::TaggedUnion,
        Data::Union => Shape::Unsupported,
    }
}

} // verus!
