//! The `remove_trait_impls` emitter: an auxiliary type declaration that is
//! structurally identical to the input but carries no trait implementations,
//! and a member operation that consumes an instance by value and yields the
//! structurally equivalent instance of the auxiliary type, without invoking
//! the input type's cleanup routine.

use vstd::prelude::*;
use vstd::string::StringExecFns;
use crate::ast::{copy_data, copy_generics, copy_string, named_fields_view, unnamed_fields_view,
    variants_view, Data, Decl, FieldList, Generics, NamedField, SpecData, SpecDecl, SpecFieldList,
    SpecGenerics, SpecNamedField, SpecUnnamedField, SpecVariant, UnnamedField, Variant};
use crate::destructure::{push_tuple_tys, read_text, spec_read_toks, spec_reads_of_unnamed,
    spec_tuple_ty_toks, Access};
use crate::error::DeriveError;
use crate::fragments::{push_apply, push_header, push_intro, push_where, spec_apply, spec_header,
    spec_intro, spec_where};
use crate::numeral::{spec_dec, u64_to_dec};
use crate::token::{cell_line, lit, match_line, push_cell_line, push_lit, push_match_line,
    push_spanned, push_text, push_unit_cell_line, push_view_line, spanned, toks, unit_cell_line,
    view_line, SpecToken, Token};

verus! {

/// The suffix appended to the input identifier to name the auxiliary type.
pub open spec fn aux_suffix() -> Seq<char> {
    "WithoutTraitImpls"@
}

/// The pieces of the second derivation: the owner type and its generics, the
/// auxiliary type's identifier, and the auxiliary type's body, which mirrors
/// the input shape exactly.
pub struct RemoveParts {
    pub ident: String,
    pub aux_ident: String,
    pub generics: Generics,
    pub body: Data,
}

/// The mathematical view of the second derivation's pieces.
#[verifier::ext_equal]
pub struct SpecRemoveParts {
    pub ident: Seq<char>,
    pub aux_ident: Seq<char>,
    pub generics: SpecGenerics,
    pub body: SpecData,
}

impl View for RemoveParts {
    type V = SpecRemoveParts;

    open spec fn view(&self) -> SpecRemoveParts {
        SpecRemoveParts {
            ident: self.ident@,
            aux_ident: self.aux_ident@,
            generics: self.generics@,
            body: self.body@,
        }
    }
}

/// What `remove_trait_impls` derives from a declaration: every shape but an
/// untagged union of fields is accepted; the auxiliary type keeps the input's
/// identifier with the fixed suffix, its generics, and its exact shape.
pub open spec fn spec_remove_parts(d: SpecDecl) -> Result<SpecRemoveParts, DeriveError> {
    match d.data {
        SpecData::Union => Err(DeriveError::RemoveTraitImplsOnUnion),
        _ => Ok(
            SpecRemoveParts {
                ident: d.name,
                aux_ident: d.name + aux_suffix(),
                generics: d.generics,
                body: d.data,
            },
        ),
    }
}

/// Derives the pieces of the `remove_trait_impls` derivation.
pub fn remove_parts(d: &Decl) -> (r: Result<RemoveParts, DeriveError>)
    ensures
        r is Ok <==> !(d@.data is Union),
        match r {
            Ok(p) => spec_remove_parts(d@) == Ok::<SpecRemoveParts, DeriveError>(p@),
            Err(e) => spec_remove_parts(d@) == Err::<SpecRemoveParts, DeriveError>(e),
        },
{
    match &d.data {
        Data::Union => Err(DeriveError::RemoveTraitImplsOnUnion),
        _ => {
            let p = RemoveParts {
                ident: copy_string(&d.name),
                aux_ident: copy_string(&d.name).concat("WithoutTraitImpls"),
                generics: copy_generics(&d.generics),
                body: copy_data(&d.data),
            };
            proof {
                assert(spec_remove_parts(d@) == Ok::<SpecRemoveParts, DeriveError>(p@));
            }
            Ok(p)
        },
    }
}

/// The declaration text of one named field of the auxiliary type.
pub open spec fn spec_field_decl_text(f: SpecNamedField) -> Seq<char> {
    f.name + ": "@ + f.ty
}

/// Renders the declaration text of one named field.
fn field_decl_text(f: &NamedField) -> (r: String)
    ensures
        r@ == spec_field_decl_text(f@),
{
    copy_string(&f.name).concat(": ").concat(f.ty.as_str())
}

/// The tokens of the auxiliary type's named fields: identical names and
/// types, in declaration order, spans kept.
pub open spec fn spec_named_decl_toks(fs: Seq<SpecNamedField>) -> Seq<SpecToken>
    decreases fs.len(),
{
    if fs.len() == 0 {
        Seq::empty()
    } else {
        spec_named_decl_toks(fs.drop_last()) + seq![
            spanned(spec_field_decl_text(fs.last()), fs.last().span),
            lit(","@),
        ]
    }
}

/// Appends the auxiliary type's named-field declarations.
fn push_named_decls(out: &mut Vec<Token>, fs: &Vec<NamedField>)
    ensures
        toks(final(out)@) == toks(old(out)@) + spec_named_decl_toks(named_fields_view(fs@)),
{
    let ghost fsv = named_fields_view(fs@);
    let ghost pre = toks(out@);
    let mut i: usize = 0;
    while i < fs.len()
        invariant
            i <= fs.len(),
            fsv == named_fields_view(fs@),
            toks(out@) == pre + spec_named_decl_toks(fsv.take(i as int)),
        decreases fs.len() - i,
    {
        push_spanned(out, field_decl_text(&fs[i]), fs[i].span);
        push_lit(out, ",");
        proof {
            assert(fsv[i as int] == fs@[i as int]@);
            assert(fsv.take(i + 1 as int).drop_last() =~= fsv.take(i as int));
            assert(fsv.take(i + 1 as int).last() == fsv[i as int]);
            assert(toks(out@) =~= pre + spec_named_decl_toks(fsv.take(i + 1 as int)));
        }
        i += 1;
    }
    proof {
        assert(fsv.take(fsv.len() as int) =~= fsv);
    }
}

/// The tokens of one variant of the auxiliary tagged union: the same variant
/// identifier with the same field list.
pub open spec fn spec_variant_decl(v: SpecVariant) -> Seq<SpecToken> {
    match v.fields {
        SpecFieldList::Named(fs) => seq![lit(v.name), lit("{"@)] + spec_named_decl_toks(fs) + seq![
            lit("}"@),
            lit(","@),
        ],
        SpecFieldList::Unnamed(fs) => seq![lit(v.name), lit("("@)] + spec_tuple_ty_toks(fs) + seq![
            lit(")"@),
            lit(","@),
        ],
        SpecFieldList::Unit => seq![lit(v.name), lit(","@)],
    }
}

/// The tokens of the auxiliary tagged union's variants, in order.
pub open spec fn spec_variant_decls(vs: Seq<SpecVariant>) -> Seq<SpecToken>
    decreases vs.len(),
{
    if vs.len() == 0 {
        Seq::empty()
    } else {
        spec_variant_decls(vs.drop_last()) + spec_variant_decl(vs.last())
    }
}

/// Appends the declaration of one auxiliary variant.
fn push_variant_decl(out: &mut Vec<Token>, v: &Variant)
    ensures
        toks(final(out)@) == toks(old(out)@) + spec_variant_decl(v@),
{
    push_text(out, copy_string(&v.name));
    match &v.fields {
        FieldList::Named(fs) => {
            push_lit(out, "{");
            push_named_decls(out, fs);
            push_lit(out, "}");
            push_lit(out, ",");
        },
        FieldList::Unnamed(fs) => {
            push_lit(out, "(");
            push_tuple_tys(out, fs);
            push_lit(out, ")");
            push_lit(out, ",");
        },
        FieldList::Unit => {
            push_lit(out, ",");
        },
    }
    proof {
        assert(toks(out@) =~= toks(old(out)@) + spec_variant_decl(v@));
    }
}

/// Appends the declarations of all auxiliary variants, in order.
fn push_variant_decls(out: &mut Vec<Token>, vs: &Vec<Variant>)
    ensures
        toks(final(out)@) == toks(old(out)@) + spec_variant_decls(variants_view(vs@)),
{
    let ghost vsv = variants_view(vs@);
    let ghost pre = toks(out@);
    let mut i: usize = 0;
    while i < vs.len()
        invariant
            i <= vs.len(),
            vsv == variants_view(vs@),
            toks(out@) == pre + spec_variant_decls(vsv.take(i as int)),
        decreases vs.len() - i,
    {
        push_variant_decl(out, &vs[i]);
        proof {
            assert(vsv[i as int] == vs@[i as int]@);
            assert(vsv.take(i + 1 as int).drop_last() =~= vsv.take(i as int));
            assert(vsv.take(i + 1 as int).last() == vsv[i as int]);
            assert(toks(out@) =~= pre + spec_variant_decls(vsv.take(i + 1 as int)));
        }
        i += 1;
    }
    proof {
        assert(vsv.take(vsv.len() as int) =~= vsv);
    }
}

/// The tokens of the auxiliary type declaration: same generics (with bounds),
/// same constraint clause, same shape, no trait implementations attached.
pub open spec fn spec_aux_decl(p: SpecRemoveParts) -> Seq<SpecToken> {
    match p.body {
        SpecData::Struct(SpecFieldList::Named(fs)) => seq![lit("struct"@), lit(p.aux_ident)]
            + spec_intro(p.generics) + spec_where(p.generics) + seq![lit("{"@)]
            + spec_named_decl_toks(fs) + seq![lit("}"@)],
        SpecData::Struct(SpecFieldList::Unnamed(fs)) => seq![lit("struct"@), lit(p.aux_ident)]
            + spec_intro(p.generics) + seq![lit("("@)] + spec_tuple_ty_toks(fs) + seq![lit(")"@)]
            + spec_where(p.generics) + seq![lit(";"@)],
        SpecData::Struct(SpecFieldList::Unit) => seq![lit("struct"@), lit(p.aux_ident)]
            + spec_intro(p.generics) + spec_where(p.generics) + seq![lit(";"@)],
        SpecData::Enum(vs) => seq![lit("enum"@), lit(p.aux_ident)] + spec_intro(p.generics)
            + spec_where(p.generics) + seq![lit("{"@)] + spec_variant_decls(vs) + seq![lit("}"@)],
        SpecData::Union => Seq::empty(),
    }
}

/// Appends the auxiliary type declaration.
fn push_aux_decl(out: &mut Vec<Token>, p: &RemoveParts)
    ensures
        toks(final(out)@) == toks(old(out)@) + spec_aux_decl(p@),
{
    match &p.body {
        Data::Struct(FieldList::Named(fs)) => {
            push_lit(out, "struct");
            push_text(out, copy_string(&p.aux_ident));
            push_intro(out, &p.generics);
            push_where(out, &p.generics);
            push_lit(out, "{");
            push_named_decls(out, fs);
            push_lit(out, "}");
            proof {
                assert(toks(out@) =~= toks(old(out)@) + spec_aux_decl(p@));
            }
        },
        Data::Struct(FieldList::Unnamed(fs)) => {
            push_lit(out, "struct");
            push_text(out, copy_string(&p.aux_ident));
            push_intro(out, &p.generics);
            push_lit(out, "(");
            push_tuple_tys(out, fs);
            push_lit(out, ")");
            push_where(out, &p.generics);
            push_lit(out, ";");
            proof {
                assert(toks(out@) =~= toks(old(out)@) + spec_aux_decl(p@));
            }
        },
        Data::Struct(FieldList::Unit) => {
            push_lit(out, "struct");
            push_text(out, copy_string(&p.aux_ident));
            push_intro(out, &p.generics);
            push_where(out, &p.generics);
            push_lit(out, ";");
            proof {
                assert(toks(out@) =~= toks(old(out)@) + spec_aux_decl(p@));
            }
        },
        Data::Enum(vs) => {
            push_lit(out, "enum");
            push_text(out, copy_string(&p.aux_ident));
            push_intro(out, &p.generics);
            push_where(out, &p.generics);
            push_lit(out, "{");
            push_variant_decls(out, vs);
            push_lit(out, "}");
            proof {
                assert(toks(out@) =~= toks(old(out)@) + spec_aux_decl(p@));
            }
        },
        Data::Union => {
            proof {
                assert(toks(out@) =~= toks(old(out)@) + spec_aux_decl(p@));
            }
        },
    }
}

/// The text of one field of the auxiliary record, populated by a bitwise read
/// of the same-named field through the read-only view.
pub open spec fn spec_named_read_text(n: Seq<char>) -> Seq<char> {
    n + ": ::std::ptr::read(&self_ref."@ + n + ")"@
}

/// Renders one named-field read of the record body.
fn named_read_text(n: &String) -> (r: String)
    ensures
        r@ == spec_named_read_text(n@),
{
    copy_string(n).concat(": ::std::ptr::read(&self_ref.").concat(n.as_str()).concat(")")
}

/// The tokens that populate the auxiliary record's named fields, in order.
pub open spec fn spec_named_read_toks(fs: Seq<SpecNamedField>) -> Seq<SpecToken>
    decreases fs.len(),
{
    if fs.len() == 0 {
        Seq::empty()
    } else {
        spec_named_read_toks(fs.drop_last()) + seq![
            spanned(spec_named_read_text(fs.last().name), fs.last().span),
            lit(","@),
        ]
    }
}

/// Appends the named-field reads of the record body.
fn push_named_reads(out: &mut Vec<Token>, fs: &Vec<NamedField>)
    ensures
        toks(final(out)@) == toks(old(out)@) + spec_named_read_toks(named_fields_view(fs@)),
{
    let ghost fsv = named_fields_view(fs@);
    let ghost pre = toks(out@);
    let mut i: usize = 0;
    while i < fs.len()
        invariant
            i <= fs.len(),
            fsv == named_fields_view(fs@),
            toks(out@) == pre + spec_named_read_toks(fsv.take(i as int)),
        decreases fs.len() - i,
    {
        push_spanned(out, named_read_text(&fs[i].name), fs[i].span);
        push_lit(out, ",");
        proof {
            assert(fsv[i as int] == fs@[i as int]@);
            assert(fsv.take(i + 1 as int).drop_last() =~= fsv.take(i as int));
            assert(fsv.take(i + 1 as int).last() == fsv[i as int]);
            assert(toks(out@) =~= pre + spec_named_read_toks(fsv.take(i + 1 as int)));
        }
        i += 1;
    }
    proof {
        assert(fsv.take(fsv.len() as int) =~= fsv);
    }
}

/// Appends the positional reads of the record body, by ordinal, in order.
fn push_pos_reads(out: &mut Vec<Token>, fs: &Vec<UnnamedField>)
    ensures
        toks(final(out)@) == toks(old(out)@) + spec_read_toks(
            spec_reads_of_unnamed(unnamed_fields_view(fs@)),
        ),
{
    let ghost fsv = unnamed_fields_view(fs@);
    let ghost rsv = spec_reads_of_unnamed(fsv);
    let ghost pre = toks(out@);
    let mut i: usize = 0;
    while i < fs.len()
        invariant
            i <= fs.len(),
            fsv == unnamed_fields_view(fs@),
            rsv == spec_reads_of_unnamed(fsv),
            toks(out@) == pre + spec_read_toks(rsv.take(i as int)),
        decreases fs.len() - i,
    {
        let t = read_text(&Access::Position(i as u64));
        push_spanned(out, t, fs[i].span);
        push_lit(out, ",");
        proof {
            assert(fsv[i as int] == fs@[i as int]@);
            assert(rsv[i as int] == spec_reads_of_unnamed(fsv)[i as int]);
            assert(rsv.take(i + 1 as int).drop_last() =~= rsv.take(i as int));
            assert(rsv.take(i + 1 as int).last() == rsv[i as int]);
            assert(toks(out@) =~= pre + spec_read_toks(rsv.take(i + 1 as int)));
        }
        i += 1;
    }
    proof {
        assert(rsv.take(rsv.len() as int) =~= rsv);
    }
}

/// The binder of one named variant field: a by-reference binding of the field
/// name, so the match moves nothing.
pub open spec fn spec_named_binder_text(n: Seq<char>) -> Seq<char> {
    "ref "@ + n
}

/// Renders one named binder.
fn named_binder_text(n: &String) -> (r: String)
    ensures
        r@ == spec_named_binder_text(n@),
{
    "ref ".to_owned().concat(n.as_str())
}

/// The text that populates one named field of the auxiliary variant by a
/// bitwise read from the bound reference.
pub open spec fn spec_named_arm_read_text(n: Seq<char>) -> Seq<char> {
    n + ": ::std::ptr::read("@ + n + ")"@
}

/// Renders one named arm read.
fn named_arm_read_text(n: &String) -> (r: String)
    ensures
        r@ == spec_named_arm_read_text(n@),
{
    copy_string(n).concat(": ::std::ptr::read(").concat(n.as_str()).concat(")")
}

/// The binder of one positional variant field: a by-reference binding of a
/// fresh local name numbered by the field's ordinal.
pub open spec fn spec_pos_binder_text(k: int) -> Seq<char> {
    "ref __"@ + spec_dec(k)
}

/// Renders one positional binder.
fn pos_binder_text(k: u64) -> (r: String)
    ensures
        r@ == spec_pos_binder_text(k as int),
{
    "ref __".to_owned().concat(u64_to_dec(k).as_str())
}

/// The text that populates one positional field of the auxiliary variant by a
/// bitwise read from the bound reference.
pub open spec fn spec_pos_arm_read_text(k: int) -> Seq<char> {
    "::std::ptr::read(__"@ + spec_dec(k) + ")"@
}

/// Renders one positional arm read.
fn pos_arm_read_text(k: u64) -> (r: String)
    ensures
        r@ == spec_pos_arm_read_text(k as int),
{
    "::std::ptr::read(__".to_owned().concat(u64_to_dec(k).as_str()).concat(")")
}

/// The binder tokens of a named variant's fields, in order, spans kept.
pub open spec fn spec_named_binder_toks(fs: Seq<SpecNamedField>) -> Seq<SpecToken>
    decreases fs.len(),
{
    if fs.len() == 0 {
        Seq::empty()
    } else {
        spec_named_binder_toks(fs.drop_last()) + seq![
            spanned(spec_named_binder_text(fs.last().name), fs.last().span),
            lit(","@),
        ]
    }
}

/// The read tokens of a named variant's arm, in order, spans kept.
pub open spec fn spec_named_arm_read_toks(fs: Seq<SpecNamedField>) -> Seq<SpecToken>
    decreases fs.len(),
{
    if fs.len() == 0 {
        Seq::empty()
    } else {
        spec_named_arm_read_toks(fs.drop_last()) + seq![
            spanned(spec_named_arm_read_text(fs.last().name), fs.last().span),
            lit(","@),
        ]
    }
}

/// The binder tokens of a positional variant's fields, numbered by ordinal,
/// in order, spans kept.
pub open spec fn spec_pos_binder_toks(fs: Seq<SpecUnnamedField>) -> Seq<SpecToken>
    decreases fs.len(),
{
    if fs.len() == 0 {
        Seq::empty()
    } else {
        spec_pos_binder_toks(fs.drop_last()) + seq![
            spanned(spec_pos_binder_text(fs.len() - 1), fs.last().span),
            lit(","@),
        ]
    }
}

/// The read tokens of a positional variant's arm, numbered by ordinal, in
/// order, spans kept.
pub open spec fn spec_pos_arm_read_toks(fs: Seq<SpecUnnamedField>) -> Seq<SpecToken>
    decreases fs.len(),
{
    if fs.len() == 0 {
        Seq::empty()
    } else {
        spec_pos_arm_read_toks(fs.drop_last()) + seq![
            spanned(spec_pos_arm_read_text(fs.len() - 1), fs.last().span),
            lit(","@),
        ]
    }
}

/// Appends the binders of a named variant's fields.
fn push_named_binders(out: &mut Vec<Token>, fs: &Vec<NamedField>)
    ensures
        toks(final(out)@) == toks(old(out)@) + spec_named_binder_toks(named_fields_view(fs@)),
{
    let ghost fsv = named_fields_view(fs@);
    let ghost pre = toks(out@);
    let mut i: usize = 0;
    while i < fs.len()
        invariant
            i <= fs.len(),
            fsv == named_fields_view(fs@),
            toks(out@) == pre + spec_named_binder_toks(fsv.take(i as int)),
        decreases fs.len() - i,
    {
        push_spanned(out, named_binder_text(&fs[i].name), fs[i].span);
        push_lit(out, ",");
        proof {
            assert(fsv[i as int] == fs@[i as int]@);
            assert(fsv.take(i + 1 as int).drop_last() =~= fsv.take(i as int));
            assert(fsv.take(i + 1 as int).last() == fsv[i as int]);
            assert(toks(out@) =~= pre + spec_named_binder_toks(fsv.take(i + 1 as int)));
        }
        i += 1;
    }
    proof {
        assert(fsv.take(fsv.len() as int) =~= fsv);
    }
}

/// Appends the reads of a named variant's arm.
fn push_named_arm_reads(out: &mut Vec<Token>, fs: &Vec<NamedField>)
    ensures
        toks(final(out)@) == toks(old(out)@) + spec_named_arm_read_toks(named_fields_view(fs@)),
{
    let ghost fsv = named_fields_view(fs@);
    let ghost pre = toks(out@);
    let mut i: usize = 0;
    while i < fs.len()
        invariant
            i <= fs.len(),
            fsv == named_fields_view(fs@),
            toks(out@) == pre + spec_named_arm_read_toks(fsv.take(i as int)),
        decreases fs.len() - i,
    {
        push_spanned(out, named_arm_read_text(&fs[i].name), fs[i].span);
        push_lit(out, ",");
        proof {
            assert(fsv[i as int] == fs@[i as int]@);
            assert(fsv.take(i + 1 as int).drop_last() =~= fsv.take(i as int));
            assert(fsv.take(i + 1 as int).last() == fsv[i as int]);
            assert(toks(out@) =~= pre + spec_named_arm_read_toks(fsv.take(i + 1 as int)));
        }
        i += 1;
    }
    proof {
        assert(fsv.take(fsv.len() as int) =~= fsv);
    }
}

/// Appends the binders of a positional variant's fields.
fn push_pos_binders(out: &mut Vec<Token>, fs: &Vec<UnnamedField>)
    ensures
        toks(final(out)@) == toks(old(out)@) + spec_pos_binder_toks(unnamed_fields_view(fs@)),
{
    let ghost fsv = unnamed_fields_view(fs@);
    let ghost pre = toks(out@);
    let mut i: usize = 0;
    while i < fs.len()
        invariant
            i <= fs.len(),
            fsv == unnamed_fields_view(fs@),
            toks(out@) == pre + spec_pos_binder_toks(fsv.take(i as int)),
        decreases fs.len() - i,
    {
        push_spanned(out, pos_binder_text(i as u64), fs[i].span);
        push_lit(out, ",");
        proof {
            assert(fsv[i as int] == fs@[i as int]@);
            assert(fsv.take(i + 1 as int).drop_last() =~= fsv.take(i as int));
            assert(fsv.take(i + 1 as int).last() == fsv[i as int]);
            assert(toks(out@) =~= pre + spec_pos_binder_toks(fsv.take(i + 1 as int)));
        }
        i += 1;
    }
    proof {
        assert(fsv.take(fsv.len() as int) =~= fsv);
    }
}

/// Appends the reads of a positional variant's arm.
fn push_pos_arm_reads(out: &mut Vec<Token>, fs: &Vec<UnnamedField>)
    ensures
        toks(final(out)@) == toks(old(out)@) + spec_pos_arm_read_toks(unnamed_fields_view(fs@)),
{
    let ghost fsv = unnamed_fields_view(fs@);
    let ghost pre = toks(out@);
    let mut i: usize = 0;
    while i < fs.len()
        invariant
            i <= fs.len(),
            fsv == unnamed_fields_view(fs@),
            toks(out@) == pre + spec_pos_arm_read_toks(fsv.take(i as int)),
        decreases fs.len() - i,
    {
        push_spanned(out, pos_arm_read_text(i as u64), fs[i].span);
        push_lit(out, ",");
        proof {
            assert(fsv[i as int] == fs@[i as int]@);
            assert(fsv.take(i + 1 as int).drop_last() =~= fsv.take(i as int));
            assert(fsv.take(i + 1 as int).last() == fsv[i as int]);
            assert(toks(out@) =~= pre + spec_pos_arm_read_toks(fsv.take(i + 1 as int)));
        }
        i += 1;
    }
    proof {
        assert(fsv.take(fsv.len() as int) =~= fsv);
    }
}

/// The tokens of one match arm: the input variant's fields are bound by
/// reference, and the same-named auxiliary variant is constructed from
/// bitwise reads of the bound references.
pub open spec fn spec_arm(ident: Seq<char>, aux_ident: Seq<char>, v: SpecVariant) -> Seq<
    SpecToken,
> {
    match v.fields {
        SpecFieldList::Named(fs) => seq![lit(ident), lit("::"@), lit(v.name), lit("{"@)]
            + spec_named_binder_toks(fs) + seq![
            lit("}"@),
            lit("=>"@),
            lit(aux_ident),
            lit("::"@),
            lit(v.name),
            lit("{"@),
        ] + spec_named_arm_read_toks(fs) + seq![lit("}"@), lit(","@)],
        SpecFieldList::Unnamed(fs) => seq![lit(ident), lit("::"@), lit(v.name), lit("("@)]
            + spec_pos_binder_toks(fs) + seq![
            lit(")"@),
            lit("=>"@),
            lit(aux_ident),
            lit("::"@),
            lit(v.name),
            lit("("@),
        ] + spec_pos_arm_read_toks(fs) + seq![lit(")"@), lit(","@)],
        SpecFieldList::Unit => seq![
            lit(ident),
            lit("::"@),
            lit(v.name),
            lit("=>"@),
            lit(aux_ident),
            lit("::"@),
            lit(v.name),
            lit(","@),
        ],
    }
}

/// The tokens of all match arms, one per variant, in declaration order: the
/// match is exhaustive by construction, with no wildcard arm.
pub open spec fn spec_arms(ident: Seq<char>, aux_ident: Seq<char>, vs: Seq<SpecVariant>) -> Seq<
    SpecToken,
>
    decreases vs.len(),
{
    if vs.len() == 0 {
        Seq::empty()
    } else {
        spec_arms(ident, aux_ident, vs.drop_last()) + spec_arm(ident, aux_ident, vs.last())
    }
}

/// Appends one match arm.
fn push_arm(out: &mut Vec<Token>, ident: &String, aux_ident: &String, v: &Variant)
    ensures
        toks(final(out)@) == toks(old(out)@) + spec_arm(ident@, aux_ident@, v@),
{
    push_text(out, copy_string(ident));
    push_lit(out, "::");
    push_text(out, copy_string(&v.name));
    match &v.fields {
        FieldList::Named(fs) => {
            push_lit(out, "{");
            push_named_binders(out, fs);
            push_lit(out, "}");
            push_lit(out, "=>");
            push_text(out, copy_string(aux_ident));
            push_lit(out, "::");
            push_text(out, copy_string(&v.name));
            push_lit(out, "{");
            push_named_arm_reads(out, fs);
            push_lit(out, "}");
            push_lit(out, ",");
        },
        FieldList::Unnamed(fs) => {
            push_lit(out, "(");
            push_pos_binders(out, fs);
            push_lit(out, ")");
            push_lit(out, "=>");
            push_text(out, copy_string(aux_ident));
            push_lit(out, "::");
            push_text(out, copy_string(&v.name));
            push_lit(out, "(");
            push_pos_arm_reads(out, fs);
            push_lit(out, ")");
            push_lit(out, ",");
        },
        FieldList::Unit => {
            push_lit(out, "=>");
            push_text(out, copy_string(aux_ident));
            push_lit(out, "::");
            push_text(out, copy_string(&v.name));
            push_lit(out, ",");
        },
    }
    proof {
        assert(toks(out@) =~= toks(old(out)@) + spec_arm(ident@, aux_ident@, v@));
    }
}

/// Appends all match arms, in order.
fn push_arms(out: &mut Vec<Token>, ident: &String, aux_ident: &String, vs: &Vec<Variant>)
    ensures
        toks(final(out)@) == toks(old(out)@) + spec_arms(ident@, aux_ident@, variants_view(vs@)),
{
    let ghost vsv = variants_view(vs@);
    let ghost pre = toks(out@);
    let mut i: usize = 0;
    while i < vs.len()
        invariant
            i <= vs.len(),
            vsv == variants_view(vs@),
            toks(out@) == pre + spec_arms(ident@, aux_ident@, vsv.take(i as int)),
        decreases vs.len() - i,
    {
        push_arm(out, ident, aux_ident, &vs[i]);
        proof {
            assert(vsv[i as int] == vs@[i as int]@);
            assert(vsv.take(i + 1 as int).drop_last() =~= vsv.take(i as int));
            assert(vsv.take(i + 1 as int).last() == vsv[i as int]);
            assert(toks(out@) =~= pre + spec_arms(ident@, aux_ident@, vsv.take(i + 1 as int)));
        }
        i += 1;
    }
    proof {
        assert(vsv.take(vsv.len() as int) =~= vsv);
    }
}

/// The body of the `remove_trait_impls` member operation: the bypass protocol
/// again. Records construct the auxiliary instance from bitwise reads through
/// the read-only view; a tagged union matches on the variant through the view,
/// one arm per variant; a unit record constructs the cell, drops it unused,
/// and names the auxiliary unit type.
pub open spec fn spec_remove_body(p: SpecRemoveParts) -> Seq<SpecToken> {
    match p.body {
        SpecData::Struct(SpecFieldList::Named(fs)) => seq![
            lit(cell_line()),
            lit("unsafe"@),
            lit("{"@),
            lit(view_line()),
            lit(p.aux_ident),
            lit("{"@),
        ] + spec_named_read_toks(fs) + seq![lit("}"@), lit("}"@)],
        SpecData::Struct(SpecFieldList::Unnamed(fs)) => seq![
            lit(cell_line()),
            lit("unsafe"@),
            lit("{"@),
            lit(view_line()),
            lit(p.aux_ident),
            lit("("@),
        ] + spec_read_toks(spec_reads_of_unnamed(fs)) + seq![lit(")"@), lit("}"@)],
        SpecData::Struct(SpecFieldList::Unit) => seq![lit(unit_cell_line()), lit(p.aux_ident)],
        SpecData::Enum(vs) => seq![
            lit(cell_line()),
            lit("unsafe"@),
            lit("{"@),
            lit(match_line()),
            lit("{"@),
        ] + spec_arms(p.ident, p.aux_ident, vs) + seq![lit("}"@), lit("}"@)],
        SpecData::Union => Seq::empty(),
    }
}

/// Appends the member operation's body.
fn push_remove_body(out: &mut Vec<Token>, p: &RemoveParts)
    ensures
        toks(final(out)@) == toks(old(out)@) + spec_remove_body(p@),
{
    match &p.body {
        Data::Struct(FieldList::Named(fs)) => {
            push_cell_line(out);
            push_lit(out, "unsafe");
            push_lit(out, "{");
            push_view_line(out);
            push_text(out, copy_string(&p.aux_ident));
            push_lit(out, "{");
            push_named_reads(out, fs);
            push_lit(out, "}");
            push_lit(out, "}");
            proof {
                assert(toks(out@) =~= toks(old(out)@) + spec_remove_body(p@));
            }
        },
        Data::Struct(FieldList::Unnamed(fs)) => {
            push_cell_line(out);
            push_lit(out, "unsafe");
            push_lit(out, "{");
            push_view_line(out);
            push_text(out, copy_string(&p.aux_ident));
            push_lit(out, "(");
            push_pos_reads(out, fs);
            push_lit(out, ")");
            push_lit(out, "}");
            proof {
                assert(toks(out@) =~= toks(old(out)@) + spec_remove_body(p@));
            }
        },
        Data::Struct(FieldList::Unit) => {
            push_unit_cell_line(out);
            push_text(out, copy_string(&p.aux_ident));
            proof {
                assert(toks(out@) =~= toks(old(out)@) + spec_remove_body(p@));
            }
        },
        Data::Enum(vs) => {
            push_cell_line(out);
            push_lit(out, "unsafe");
            push_lit(out, "{");
            push_match_line(out);
            push_lit(out, "{");
            push_arms(out, &p.ident, &p.aux_ident, vs);
            push_lit(out, "}");
            push_lit(out, "}");
            proof {
                assert(toks(out@) =~= toks(old(out)@) + spec_remove_body(p@));
            }
        },
        Data::Union => {
            proof {
                assert(toks(out@) =~= toks(old(out)@) + spec_remove_body(p@));
            }
        },
    }
}

/// The full token stream of the second derivation: the auxiliary type
/// declaration, then the `remove_trait_impls` member operation on the input
/// type, returning the auxiliary type applied to the bare parameters.
pub open spec fn spec_render_remove(p: SpecRemoveParts) -> Seq<SpecToken> {
    spec_aux_decl(p) + spec_header(p.ident, p.generics) + seq![
        lit("{"@),
        lit("#[inline(always)]"@),
        lit("fn remove_trait_impls(self)"@),
        lit("->"@),
        lit(p.aux_ident),
    ] + spec_apply(p.generics) + seq![lit("{"@)] + spec_remove_body(p) + seq![
        lit("}"@),
        lit("}"@),
    ]
}

/// Renders the second derivation as host source tokens.
pub fn render_remove_trait_impls(p: &RemoveParts) -> (r: Vec<Token>)
    ensures
        toks(r@) == spec_render_remove(p@),
{
    let mut out: Vec<Token> = Vec::new();
    push_aux_decl(&mut out, p);
    push_header(&mut out, &p.ident, &p.generics);
    push_lit(&mut out, "{");
    push_lit(&mut out, "#[inline(always)]");
    push_lit(&mut out, "fn remove_trait_impls(self)");
    push_lit(&mut out, "->");
    push_text(&mut out, copy_string(&p.aux_ident));
    push_apply(&mut out, &p.generics);
    push_lit(&mut out, "{");
    push_remove_body(&mut out, p);
    push_lit(&mut out, "}");
    push_lit(&mut out, "}");
    proof {
        assert(toks(out@) =~= spec_render_remove(p@));
    }
    out
}

/// The whole second derivation at the token level: the auxiliary type and the
/// member operation for any shape but an untagged union of fields, which is
/// rejected.
pub open spec fn spec_derive_remove_trait_impls(d: SpecDecl) -> Result<Seq<SpecToken>, DeriveError,
> {
    match spec_remove_parts(d) {
        Ok(p) => Ok(spec_render_remove(p)),
        Err(e) => Err(e),
    }
}

/// Derives the `remove_trait_impls` member operation and its auxiliary type
/// for a declaration, as a token stream to splice after the declaration.
/// Succeeds on every record shape and on tagged unions; an untagged union of
/// fields is rejected with its fixed message.
pub fn derive_remove_trait_impls(d: &Decl) -> (r: Result<Vec<Token>, DeriveError>)
    ensures
        r is Ok <==> !(d@.data is Union),
        match r {
            Ok(ts) => spec_derive_remove_trait_impls(d@) == Ok::<Seq<SpecToken>, DeriveError>(
                toks(ts@),
            ),
            Err(e) => spec_derive_remove_trait_impls(d@) == Err::<Seq<SpecToken>, DeriveError>(e),
        },
{
    match remove_parts(d) {
        Ok(p) => Ok(render_remove_trait_impls(&p)),
        Err(e) => Err(e),
    }
}

} // verus!
