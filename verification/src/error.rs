//! The diagnostic gate's rejections, each with its fixed message.

use vstd::prelude::*;

verus! {

/// Why a derivation rejected a declaration.
#[derive(Clone, Copy, PartialEq, Eq, Structural, Debug)]
pub enum DeriveError {
    /// `destructure` was applied to a tagged union.
    DestructureOnEnum,
    /// `destructure` was applied to an untagged union of fields.
    DestructureOnUnion,
    /// `remove_trait_impls` was applied to an untagged union of fields.
    RemoveTraitImplsOnUnion,
}

/// The fixed human-readable message of each rejection.
pub open spec fn spec_message(e: DeriveError) -> Seq<char> {
    match e {
        DeriveError::DestructureOnEnum => "#[derive(destructure)] doesn't work on enums, use #[derive(remove_trait_impls)] instead."@,
        DeriveError::DestructureOnUnion => "#[derive(destructure)] doesn't work on unions."@,
        DeriveError::RemoveTraitImplsOnUnion => "#[derive(remove_trait_impls)] doesn't work on unions."@,
    }
}

impl DeriveError {
    /// The message to report through the host's diagnostic channel.
    pub fn message(&self) -> (r: String)
        ensures
            r@ == spec_message(*self),
    {
        match self {
            DeriveError::DestructureOnEnum => "#[derive(destructure)] doesn't work on enums, use #[derive(remove_trait_impls)] instead.".to_owned(),
            DeriveError::DestructureOnUnion => "#[derive(destructure)] doesn't work on unions.".to_owned(),
            DeriveError::RemoveTraitImplsOnUnion => "#[derive(remove_trait_impls)] doesn't work on unions.".to_owned(),
        }
    }
}

} // verus!
