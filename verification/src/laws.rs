//! The laws of the derivation engine, stated and proved over the spec
//! functions that the emitters' contracts use.

use vstd::prelude::*;
use crate::ast::{SpecData, SpecDecl, SpecFieldList, SpecUnnamedField, SpecVariant};
use crate::classify::{spec_classify, Shape};
use crate::destructure::{spec_derive_destructure, spec_destructure_body, spec_destructure_parts,
    spec_read_toks, spec_ret_toks, spec_tuple_ty_toks, SpecAccess};
use crate::error::DeriveError;
use crate::remove_impls::{aux_suffix, spec_arm, spec_arms, spec_derive_remove_trait_impls,
    spec_field_decl_text, spec_named_binder_toks, spec_named_decl_toks, spec_named_read_text,
    spec_named_read_toks, spec_pos_binder_toks, spec_remove_body, spec_remove_parts};
use crate::token::{cell_line, lit, spanned, unit_cell_line};

verus! {

/// The tuple-type segment holds exactly two tokens per field.
pub proof fn lemma_tuple_ty_toks_len(tys: Seq<SpecUnnamedField>)
    ensures
        spec_tuple_ty_toks(tys).len() == 2 * tys.len(),
    decreases tys.len(),
{
    if tys.len() > 0 {
        lemma_tuple_ty_toks_len(tys.drop_last());
    }
}

/// The binder segment of a named variant holds exactly two tokens per field.
pub proof fn lemma_named_binder_toks_len(fs: Seq<crate::ast::SpecNamedField>)
    ensures
        spec_named_binder_toks(fs).len() == 2 * fs.len(),
    decreases fs.len(),
{
    if fs.len() > 0 {
        lemma_named_binder_toks_len(fs.drop_last());
    }
}

/// The binder segment of a positional variant holds exactly two tokens per
/// field.
pub proof fn lemma_pos_binder_toks_len(fs: Seq<SpecUnnamedField>)
    ensures
        spec_pos_binder_toks(fs).len() == 2 * fs.len(),
    decreases fs.len(),
{
    if fs.len() > 0 {
        lemma_pos_binder_toks_len(fs.drop_last());
    }
}

/// Order preservation in the emitted result type: the `k`-th element of the
/// output tuple is the `k`-th declared field's type, carrying that field's
/// span, and each element is followed by its comma.
pub proof fn law_tuple_element_k(tys: Seq<SpecUnnamedField>, k: int)
    requires
        0 <= k < tys.len(),
    ensures
        spec_tuple_ty_toks(tys).len() == 2 * tys.len(),
        spec_tuple_ty_toks(tys)[2 * k] == spanned(tys[k].ty, tys[k].span),
        spec_tuple_ty_toks(tys)[2 * k + 1] == lit(","@),
    decreases tys.len(),
{
    lemma_tuple_ty_toks_len(tys);
    lemma_tuple_ty_toks_len(tys.drop_last());
    if k < tys.len() - 1 {
        law_tuple_element_k(tys.drop_last(), k);
        assert(tys.drop_last()[k] == tys[k]);
    }
}

/// Order preservation in the emitted body: the `k`-th bitwise read is the
/// read of the `k`-th declared field, carrying that field's span.
pub proof fn law_read_k(reads: Seq<crate::destructure::SpecFieldRead>, k: int)
    requires
        0 <= k < reads.len(),
    ensures
        spec_read_toks(reads).len() == 2 * reads.len(),
        spec_read_toks(reads)[2 * k] == spanned(
            crate::destructure::spec_read_text(reads[k].access),
            reads[k].span,
        ),
        spec_read_toks(reads)[2 * k + 1] == lit(","@),
    decreases reads.len(),
{
    lemma_read_toks_len(reads);
    lemma_read_toks_len(reads.drop_last());
    if k < reads.len() - 1 {
        law_read_k(reads.drop_last(), k);
        assert(reads.drop_last()[k] == reads[k]);
    }
}

/// The read segment holds exactly two tokens per field read.
pub proof fn lemma_read_toks_len(reads: Seq<crate::destructure::SpecFieldRead>)
    ensures
        spec_read_toks(reads).len() == 2 * reads.len(),
    decreases reads.len(),
{
    if reads.len() > 0 {
        lemma_read_toks_len(reads.drop_last());
    }
}

/// The auxiliary record's field-declaration segment holds exactly two tokens
/// per field.
pub proof fn lemma_named_decl_toks_len(fs: Seq<crate::ast::SpecNamedField>)
    ensures
        spec_named_decl_toks(fs).len() == 2 * fs.len(),
    decreases fs.len(),
{
    if fs.len() > 0 {
        lemma_named_decl_toks_len(fs.drop_last());
    }
}

/// Field preservation in the auxiliary record declaration: the `k`-th
/// declared field of the auxiliary type is the `k`-th field of the input,
/// same name, same type, same span.
pub proof fn law_named_field_decl_k(fs: Seq<crate::ast::SpecNamedField>, k: int)
    requires
        0 <= k < fs.len(),
    ensures
        spec_named_decl_toks(fs).len() == 2 * fs.len(),
        spec_named_decl_toks(fs)[2 * k] == spanned(spec_field_decl_text(fs[k]), fs[k].span),
        spec_named_decl_toks(fs)[2 * k + 1] == lit(","@),
    decreases fs.len(),
{
    lemma_named_decl_toks_len(fs);
    lemma_named_decl_toks_len(fs.drop_last());
    if k < fs.len() - 1 {
        law_named_field_decl_k(fs.drop_last(), k);
        assert(fs.drop_last()[k] == fs[k]);
    }
}

/// The record body of `remove_trait_impls` populates the auxiliary instance
/// field by field: the `k`-th read is the read of the `k`-th declared field,
/// under that field's own name, carrying its span.
pub proof fn law_named_read_k(fs: Seq<crate::ast::SpecNamedField>, k: int)
    requires
        0 <= k < fs.len(),
    ensures
        spec_named_read_toks(fs).len() == 2 * fs.len(),
        spec_named_read_toks(fs)[2 * k] == spanned(
            spec_named_read_text(fs[k].name),
            fs[k].span,
        ),
        spec_named_read_toks(fs)[2 * k + 1] == lit(","@),
    decreases fs.len(),
{
    lemma_named_read_toks_len(fs);
    lemma_named_read_toks_len(fs.drop_last());
    if k < fs.len() - 1 {
        law_named_read_k(fs.drop_last(), k);
        assert(fs.drop_last()[k] == fs[k]);
    }
}

/// The record-body read segment holds exactly two tokens per field.
pub proof fn lemma_named_read_toks_len(fs: Seq<crate::ast::SpecNamedField>)
    ensures
        spec_named_read_toks(fs).len() == 2 * fs.len(),
    decreases fs.len(),
{
    if fs.len() > 0 {
        lemma_named_read_toks_len(fs.drop_last());
    }
}

/// Field preservation and order preservation for `destructure`: on every
/// supported shape the derivation succeeds, the owner and generics are the
/// input's, the tuple holds exactly the field types in declaration order, and
/// each field is read exactly once, in declaration order, by its own
/// accessor, with its own span.
pub proof fn law_destructure_structure(d: SpecDecl)
    ensures
        spec_destructure_parts(d) is Ok <==> d.data is Struct,
        spec_destructure_parts(d) is Ok ==> {
            let p = spec_destructure_parts(d)->Ok_0;
            &&& p.ident == d.name
            &&& p.generics == d.generics
        },
        d.data matches SpecData::Struct(SpecFieldList::Named(fs)) ==> {
            let p = spec_destructure_parts(d)->Ok_0;
            &&& p.ret matches Some(tys)
            &&& p.ret->Some_0.len() == fs.len()
            &&& forall|k: int|
                0 <= k < fs.len() ==> p.ret->Some_0[k].ty == fs[k].ty && p.ret->Some_0[k].span
                    == fs[k].span
            &&& p.reads.len() == fs.len()
            &&& forall|k: int|
                0 <= k < fs.len() ==> p.reads[k].access == SpecAccess::Field(fs[k].name)
                    && p.reads[k].span == fs[k].span
        },
        d.data matches SpecData::Struct(SpecFieldList::Unnamed(fs)) ==> {
            let p = spec_destructure_parts(d)->Ok_0;
            &&& p.ret == Some(fs)
            &&& p.reads.len() == fs.len()
            &&& forall|k: int|
                0 <= k < fs.len() ==> p.reads[k].access == SpecAccess::Position(k as u64)
                    && p.reads[k].span == fs[k].span
        },
        d.data matches SpecData::Struct(SpecFieldList::Unit) ==> {
            let p = spec_destructure_parts(d)->Ok_0;
            &&& p.ret is None
            &&& p.reads.len() == 0
        },
{
}

/// Structural preservation for `remove_trait_impls`: every shape but an
/// untagged union of fields is accepted, and the auxiliary type keeps the
/// input's identifier (with the fixed suffix appended), its generic parameter
/// list, its constraint clause, and its exact shape: same field names, field
/// types, spans, and same-named variants of the same shapes.
pub proof fn law_remove_structure(d: SpecDecl)
    ensures
        spec_remove_parts(d) is Ok <==> !(d.data is Union),
        spec_remove_parts(d) is Ok ==> {
            let p = spec_remove_parts(d)->Ok_0;
            &&& p.ident == d.name
            &&& p.aux_ident == d.name + aux_suffix()
            &&& p.generics == d.generics
            &&& p.body == d.data
        },
{
}

/// A record with exactly one field yields a one-element tuple, not the bare
/// field type: the element type is followed by a comma inside the
/// parentheses.
pub proof fn law_single_field_tuple(tys: Seq<SpecUnnamedField>)
    requires
        tys.len() == 1,
    ensures
        spec_ret_toks(Some(tys)) =~= seq![
            lit("->"@),
            lit("("@),
            spanned(tys[0].ty, tys[0].span),
            lit(","@),
            lit(")"@),
        ],
{
    assert(spec_tuple_ty_toks(tys.drop_last()) =~= Seq::<crate::token::SpecToken>::empty());
    assert(tys.last() == tys[0]);
}

/// A unit record produces a member operation with no result whose body only
/// constructs the no-cleanup cell and drops it unused.
pub proof fn law_unit_record(d: SpecDecl)
    requires
        d.data is Struct,
        d.data->Struct_0 is Unit,
    ensures
        spec_destructure_parts(d)->Ok_0.ret is None,
        spec_ret_toks(spec_destructure_parts(d)->Ok_0.ret) == Seq::<crate::token::SpecToken>::empty(),
        spec_destructure_body(spec_destructure_parts(d)->Ok_0) =~= seq![lit(unit_cell_line())],
{
}

/// An empty positional record produces the empty product: the result is the
/// empty tuple and the body reads no field.
pub proof fn law_empty_positional(d: SpecDecl)
    requires
        d.data matches SpecData::Struct(SpecFieldList::Unnamed(fs)) && fs.len() == 0,
    ensures
        spec_destructure_parts(d)->Ok_0.ret matches Some(tys) && tys.len() == 0,
        spec_ret_toks(spec_destructure_parts(d)->Ok_0.ret) =~= seq![
            lit("->"@),
            lit("("@),
            lit(")"@),
        ],
        spec_read_toks(spec_destructure_parts(d)->Ok_0.reads) == Seq::<
            crate::token::SpecToken,
        >::empty(),
{
    let p = spec_destructure_parts(d)->Ok_0;
    assert(spec_tuple_ty_toks(p.ret->Some_0) =~= Seq::<crate::token::SpecToken>::empty());
    assert(p.reads =~= Seq::<crate::destructure::SpecFieldRead>::empty());
}

/// Whether a derivation accepts a declaration depends on its shape alone:
/// generic parameters, lifetime parameters and constraint clauses never
/// change acceptance.
pub proof fn law_shape_decides(d1: SpecDecl, d2: SpecDecl)
    requires
        d1.data == d2.data,
    ensures
        spec_derive_destructure(d1) is Ok <==> spec_derive_destructure(d2) is Ok,
        spec_derive_remove_trait_impls(d1) is Ok <==> spec_derive_remove_trait_impls(d2) is Ok,
        spec_classify(d1) == spec_classify(d2),
{
}

/// `destructure` rejects a tagged union, with the fixed message that directs
/// the user to the other derivation; both derivations reject an untagged
/// union of fields.
pub proof fn law_rejections(d: SpecDecl)
    ensures
        d.data is Enum ==> spec_derive_destructure(d) == Err::<
            Seq<crate::token::SpecToken>,
            DeriveError,
        >(DeriveError::DestructureOnEnum),
        d.data is Union ==> spec_derive_destructure(d) == Err::<
            Seq<crate::token::SpecToken>,
            DeriveError,
        >(DeriveError::DestructureOnUnion),
        d.data is Union ==> spec_derive_remove_trait_impls(d) == Err::<
            Seq<crate::token::SpecToken>,
            DeriveError,
        >(DeriveError::RemoveTraitImplsOnUnion),
        spec_classify(d) == Shape::Unsupported <==> d.data is Union,
{
}

/// Both derivations' bodies begin by placing the consumed instance into the
/// cell whose own drop runs no cleanup: the first body token is the cell
/// construction (or, for field-less shapes, the variant that binds the cell
/// to nothing and drops it unused).
pub proof fn law_bypass_protocol_first(d: SpecDecl)
    ensures
        d.data is Struct ==> {
            let body = spec_destructure_body(spec_destructure_parts(d)->Ok_0);
            &&& body.len() > 0
            &&& (body[0] == lit(cell_line()) || body[0] == lit(unit_cell_line()))
        },
        !(d.data is Union) ==> {
            let body = spec_remove_body(spec_remove_parts(d)->Ok_0);
            &&& body.len() > 0
            &&& (body[0] == lit(cell_line()) || body[0] == lit(unit_cell_line()))
        },
{
}

/// The match of the tagged-union body is exhaustive by construction: it holds
/// one arm per variant, in declaration order, and nothing else.
pub proof fn law_arms_enumerate(ident: Seq<char>, aux_ident: Seq<char>, vs: Seq<SpecVariant>, k: int)
    requires
        0 <= k < vs.len(),
    ensures
        spec_arms(ident, aux_ident, vs.take(k + 1)) == spec_arms(ident, aux_ident, vs.take(k))
            + spec_arm(ident, aux_ident, vs[k]),
{
    assert(vs.take(k + 1).drop_last() =~= vs.take(k));
    assert(vs.take(k + 1).last() == vs[k]);
}

/// Each arm constructs the same-named variant of the auxiliary type: after
/// the `=>`, the arm names the auxiliary type, then the variant's own
/// identifier.
pub proof fn law_arm_same_variant(ident: Seq<char>, aux_ident: Seq<char>, v: SpecVariant)
    ensures
        v.fields matches SpecFieldList::Named(fs) ==> {
            let arm = spec_arm(ident, aux_ident, v);
            &&& arm[4 + 2 * fs.len() as int + 2] == lit(aux_ident)
            &&& arm[4 + 2 * fs.len() as int + 4] == lit(v.name)
        },
        v.fields matches SpecFieldList::Unnamed(fs) ==> {
            let arm = spec_arm(ident, aux_ident, v);
            &&& arm[4 + 2 * fs.len() as int + 2] == lit(aux_ident)
            &&& arm[4 + 2 * fs.len() as int + 4] == lit(v.name)
        },
        v.fields is Unit ==> {
            let arm = spec_arm(ident, aux_ident, v);
            &&& arm[4] == lit(aux_ident)
            &&& arm[6] == lit(v.name)
        },
{
    match v.fields {
        SpecFieldList::Named(fs) => {
            lemma_named_binder_toks_len(fs);
        },
        SpecFieldList::Unnamed(fs) => {
            lemma_pos_binder_toks_len(fs);
        },
        SpecFieldList::Unit => {},
    }
}

} // verus!
