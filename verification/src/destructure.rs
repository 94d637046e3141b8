//! The `destructure` emitter: a member operation that consumes an instance by
//! value and returns its fields bundled as a tuple, in declaration order,
//! without invoking the type's cleanup routine.

use vstd::prelude::*;
use vstd::string::StringExecFns;
use crate::ast::{named_fields_view, unnamed_fields_view, Decl, FieldList, Generics, SpecData,
    SpecDecl, SpecFieldList, SpecGenerics, SpecNamedField, SpecUnnamedField, UnnamedField};
use crate::ast::{copy_generics, copy_string, lemma_unnamed_fields_view_push, Data};
use crate::error::DeriveError;
use crate::fragments::{push_header, spec_header};
use crate::numeral::{spec_dec, u64_to_dec};
use crate::token::{cell_line, lit, push_cell_line, push_lit, push_spanned, push_unit_cell_line,
    push_view_line, spanned, toks, unit_cell_line, view_line, SpecToken, Token};

verus! {

/// How one field is reached from the read-only view: by name, or by ordinal
/// position.
pub enum Access {
    Field(String),
    Position(u64),
}

/// The mathematical view of an accessor.
#[verifier::ext_equal]
pub enum SpecAccess {
    Field(Seq<char>),
    Position(u64),
}

impl View for Access {
    type V = SpecAccess;

    open spec fn view(&self) -> SpecAccess {
        match self {
            Access::Field(n) => SpecAccess::Field(n@),
            Access::Position(i) => SpecAccess::Position(*i),
        }
    }
}

/// One bitwise field read: the field's accessor and the field's span.
pub struct FieldRead {
    pub access: Access,
    pub span: u64,
}

/// The mathematical view of a field read.
#[verifier::ext_equal]
pub struct SpecFieldRead {
    pub access: SpecAccess,
    pub span: u64,
}

impl View for FieldRead {
    type V = SpecFieldRead;

    open spec fn view(&self) -> SpecFieldRead {
        SpecFieldRead { access: self.access@, span: self.span }
    }
}

/// The view of a sequence of field reads.
pub open spec fn reads_view(rs: Seq<FieldRead>) -> Seq<SpecFieldRead> {
    rs.map_values(|r: FieldRead| r@)
}

/// Mapping the view over a read sequence commutes with `push`.
pub proof fn lemma_reads_view_push(s: Seq<FieldRead>, r: FieldRead)
    ensures
        reads_view(s.push(r)) == reads_view(s).push(r@),
{
    assert(reads_view(s.push(r)) =~= reads_view(s).push(r@));
}

/// The pieces of the emitted `destructure` member operation: the owner type
/// and its generics, the tuple of result types (`None` for a unit record,
/// which has no result), and the bitwise reads, one per field, in declaration
/// order.
pub struct DestructureParts {
    pub ident: String,
    pub generics: Generics,
    pub ret: Option<Vec<UnnamedField>>,
    pub reads: Vec<FieldRead>,
}

/// The mathematical view of the emitted pieces.
#[verifier::ext_equal]
pub struct SpecDestructureParts {
    pub ident: Seq<char>,
    pub generics: SpecGenerics,
    pub ret: Option<Seq<SpecUnnamedField>>,
    pub reads: Seq<SpecFieldRead>,
}

impl View for DestructureParts {
    type V = SpecDestructureParts;

    open spec fn view(&self) -> SpecDestructureParts {
        SpecDestructureParts {
            ident: self.ident@,
            generics: self.generics@,
            ret: match self.ret {
                Some(tys) => Some(unnamed_fields_view(tys@)),
                None => None,
            },
            reads: reads_view(self.reads@),
        }
    }
}

/// The tuple element for each named field: its type and span, in order.
pub open spec fn spec_tuple_of_named(fs: Seq<SpecNamedField>) -> Seq<SpecUnnamedField> {
    fs.map_values(|f: SpecNamedField| SpecUnnamedField { ty: f.ty, span: f.span })
}

/// The read of each named field: by its name, in order.
pub open spec fn spec_reads_of_named(fs: Seq<SpecNamedField>) -> Seq<SpecFieldRead> {
    fs.map_values(|f: SpecNamedField| SpecFieldRead { access: SpecAccess::Field(f.name), span: f.span })
}

/// The read of each positional field: by its ordinal, in order.
pub open spec fn spec_reads_of_unnamed(fs: Seq<SpecUnnamedField>) -> Seq<SpecFieldRead> {
    Seq::new(fs.len(), |i: int| SpecFieldRead { access: SpecAccess::Position(i as u64), span: fs[i].span })
}

/// What `destructure` derives from a declaration: the member operation's
/// pieces for the three record shapes, and a rejection for a tagged union or
/// an untagged union of fields.
pub open spec fn spec_destructure_parts(d: SpecDecl) -> Result<SpecDestructureParts, DeriveError> {
    match d.data {
        SpecData::Struct(SpecFieldList::Named(fs)) => Ok(
            SpecDestructureParts {
                ident: d.name,
                generics: d.generics,
                ret: Some(spec_tuple_of_named(fs)),
                reads: spec_reads_of_named(fs),
            },
        ),
        SpecData::Struct(SpecFieldList::Unnamed(fs)) => Ok(
            SpecDestructureParts {
                ident: d.name,
                generics: d.generics,
                ret: Some(fs),
                reads: spec_reads_of_unnamed(fs),
            },
        ),
        SpecData::Struct(SpecFieldList::Unit) => Ok(
            SpecDestructureParts {
                ident: d.name,
                generics: d.generics,
                ret: None,
                reads: Seq::empty(),
            },
        ),
        SpecData::Enum(_) => Err(DeriveError::DestructureOnEnum),
        SpecData::Union => Err(DeriveError::DestructureOnUnion),
    }
}

/// Derives the pieces of the `destructure` member operation.
pub fn destructure_parts(d: &Decl) -> (r: Result<DestructureParts, DeriveError>)
    ensures
        r is Ok <==> d@.data is Struct,
        match r {
            Ok(p) => spec_destructure_parts(d@) == Ok::<SpecDestructureParts, DeriveError>(p@),
            Err(e) => spec_destructure_parts(d@) == Err::<SpecDestructureParts, DeriveError>(e),
        },
{
    match &d.data {
        Data::Struct(FieldList::Named(fs)) => {
            let ghost fsv = named_fields_view(fs@);
            let mut ret: Vec<UnnamedField> = Vec::new();
            let mut reads: Vec<FieldRead> = Vec::new();
            let mut i: usize = 0;
            while i < fs.len()
                invariant
                    i <= fs.len(),
                    fsv == named_fields_view(fs@),
                    unnamed_fields_view(ret@) == spec_tuple_of_named(fsv).take(i as int),
                    reads_view(reads@) == spec_reads_of_named(fsv).take(i as int),
                decreases fs.len() - i,
            {
                let ghost ret_before = ret@;
                let ghost reads_before = reads@;
                let f = &fs[i];
                ret.push(UnnamedField { ty: copy_string(&f.ty), span: f.span });
                reads.push(FieldRead { access: Access::Field(copy_string(&f.name)), span: f.span });
                proof {
                    lemma_unnamed_fields_view_push(ret_before, ret@[ret_before.len() as int]);
                    lemma_reads_view_push(reads_before, reads@[reads_before.len() as int]);
                    assert(fsv[i as int] == fs@[i as int]@);
                    assert(spec_tuple_of_named(fsv).take(i + 1 as int) =~= spec_tuple_of_named(
                        fsv,
                    ).take(i as int).push(spec_tuple_of_named(fsv)[i as int]));
                    assert(spec_reads_of_named(fsv).take(i + 1 as int) =~= spec_reads_of_named(
                        fsv,
                    ).take(i as int).push(spec_reads_of_named(fsv)[i as int]));
                    assert(ret@[ret_before.len() as int]@ =~= spec_tuple_of_named(fsv)[i as int]);
                    assert(reads@[reads_before.len() as int]@ =~= spec_reads_of_named(
                        fsv,
                    )[i as int]);
                }
                i += 1;
            }
            let p = DestructureParts {
                ident: copy_string(&d.name),
                generics: copy_generics(&d.generics),
                ret: Some(ret),
                reads,
            };
            proof {
                assert(spec_tuple_of_named(fsv).take(fsv.len() as int) =~= spec_tuple_of_named(
                    fsv,
                ));
                assert(spec_reads_of_named(fsv).take(fsv.len() as int) =~= spec_reads_of_named(
                    fsv,
                ));
                assert(spec_destructure_parts(d@) == Ok::<SpecDestructureParts, DeriveError>(p@));
            }
            Ok(p)
        },
        Data::Struct(FieldList::Unnamed(fs)) => {
            let ghost fsv = unnamed_fields_view(fs@);
            let mut ret: Vec<UnnamedField> = Vec::new();
            let mut reads: Vec<FieldRead> = Vec::new();
            let mut i: usize = 0;
            while i < fs.len()
                invariant
                    i <= fs.len(),
                    fsv == unnamed_fields_view(fs@),
                    unnamed_fields_view(ret@) == fsv.take(i as int),
                    reads_view(reads@) == spec_reads_of_unnamed(fsv).take(i as int),
                decreases fs.len() - i,
            {
                let ghost ret_before = ret@;
                let ghost reads_before = reads@;
                let f = &fs[i];
                ret.push(UnnamedField { ty: copy_string(&f.ty), span: f.span });
                reads.push(FieldRead { access: Access::Position(i as u64), span: f.span });
                proof {
                    lemma_unnamed_fields_view_push(ret_before, ret@[ret_before.len() as int]);
                    lemma_reads_view_push(reads_before, reads@[reads_before.len() as int]);
                    assert(fsv[i as int] == fs@[i as int]@);
                    assert(fsv.take(i + 1 as int) =~= fsv.take(i as int).push(fsv[i as int]));
                    assert(spec_reads_of_unnamed(fsv).take(i + 1 as int)
                        =~= spec_reads_of_unnamed(fsv).take(i as int).push(
                        spec_reads_of_unnamed(fsv)[i as int],
                    ));
                    assert(ret@[ret_before.len() as int]@ =~= fsv[i as int]);
                    assert(reads@[reads_before.len() as int]@ =~= spec_reads_of_unnamed(
                        fsv,
                    )[i as int]);
                }
                i += 1;
            }
            let p = DestructureParts {
                ident: copy_string(&d.name),
                generics: copy_generics(&d.generics),
                ret: Some(ret),
                reads,
            };
            proof {
                assert(fsv.take(fsv.len() as int) =~= fsv);
                assert(spec_reads_of_unnamed(fsv).take(fsv.len() as int) =~= spec_reads_of_unnamed(
                    fsv,
                ));
                assert(spec_destructure_parts(d@) == Ok::<SpecDestructureParts, DeriveError>(p@));
            }
            Ok(p)
        },
        Data::Struct(FieldList::Unit) => {
            let p = DestructureParts {
                ident: copy_string(&d.name),
                generics: copy_generics(&d.generics),
                ret: None,
                reads: Vec::new(),
            };
            proof {
                assert(reads_view(p.reads@) =~= Seq::<SpecFieldRead>::empty());
                assert(spec_destructure_parts(d@) == Ok::<SpecDestructureParts, DeriveError>(p@));
            }
            Ok(p)
        },
        Data::Enum(_) => Err(DeriveError::DestructureOnEnum),
        Data::Union => Err(DeriveError::DestructureOnUnion),
    }
}

/// The source text of one bitwise read through the read-only view.
pub open spec fn spec_access_text(a: SpecAccess) -> Seq<char> {
    match a {
        SpecAccess::Field(n) => n,
        SpecAccess::Position(i) => spec_dec(i as int),
    }
}

/// The source text of one bitwise read through the read-only view.
pub open spec fn spec_read_text(a: SpecAccess) -> Seq<char> {
    "::std::ptr::read(&self_ref."@ + spec_access_text(a) + ")"@
}

/// Renders one bitwise read through the read-only view.
pub fn read_text(a: &Access) -> (r: String)
    ensures
        r@ == spec_read_text(a@),
{
    let base = "::std::ptr::read(&self_ref.".to_owned();
    let mid = match a {
        Access::Field(n) => base.concat(n.as_str()),
        Access::Position(i) => base.concat(u64_to_dec(*i).as_str()),
    };
    mid.concat(")")
}

/// The tokens of the tuple's element types, each carrying its field's span,
/// each followed by a comma (so a single-element tuple stays a tuple).
pub open spec fn spec_tuple_ty_toks(tys: Seq<SpecUnnamedField>) -> Seq<SpecToken>
    decreases tys.len(),
{
    if tys.len() == 0 {
        Seq::empty()
    } else {
        spec_tuple_ty_toks(tys.drop_last()) + seq![
            spanned(tys.last().ty, tys.last().span),
            lit(","@),
        ]
    }
}

/// The result tokens of the member operation: nothing for a unit record, the
/// tuple of field types otherwise.
pub open spec fn spec_ret_toks(ret: Option<Seq<SpecUnnamedField>>) -> Seq<SpecToken> {
    match ret {
        None => Seq::empty(),
        Some(tys) => seq![lit("->"@), lit("("@)] + spec_tuple_ty_toks(tys) + seq![lit(")"@)],
    }
}

/// The tokens of the bitwise reads, one per field, in declaration order, each
/// carrying its field's span, each followed by a comma.
pub open spec fn spec_read_toks(reads: Seq<SpecFieldRead>) -> Seq<SpecToken>
    decreases reads.len(),
{
    if reads.len() == 0 {
        Seq::empty()
    } else {
        spec_read_toks(reads.drop_last()) + seq![
            spanned(spec_read_text(reads.last().access), reads.last().span),
            lit(","@),
        ]
    }
}

/// The body of the emitted member operation: the bypass protocol. A unit
/// record constructs the cell and drops it unused; otherwise the instance is
/// placed in the cell, the read-only view is taken, and every field is read
/// bitwise, exactly once, in declaration order.
pub open spec fn spec_destructure_body(p: SpecDestructureParts) -> Seq<SpecToken> {
    match p.ret {
        None => seq![lit(unit_cell_line())],
        Some(_) => seq![
            lit(cell_line()),
            lit("unsafe"@),
            lit("{"@),
            lit(view_line()),
            lit("("@),
        ] + spec_read_toks(p.reads) + seq![lit(")"@), lit("}"@)],
    }
}

/// The full token stream of the emitted `destructure` member operation.
pub open spec fn spec_render_destructure(p: SpecDestructureParts) -> Seq<SpecToken> {
    spec_header(p.ident, p.generics) + seq![
        lit("{"@),
        lit("#[inline(always)]"@),
        lit("fn destructure(self)"@),
    ] + spec_ret_toks(p.ret) + seq![lit("{"@)] + spec_destructure_body(p) + seq![
        lit("}"@),
        lit("}"@),
    ]
}

/// Appends the tuple element types, one per field, spans kept.
pub fn push_tuple_tys(out: &mut Vec<Token>, tys: &Vec<UnnamedField>)
    ensures
        toks(final(out)@) == toks(old(out)@) + spec_tuple_ty_toks(unnamed_fields_view(tys@)),
{
    let ghost tysv = unnamed_fields_view(tys@);
    let ghost pre = toks(out@);
    let mut i: usize = 0;
    while i < tys.len()
        invariant
            i <= tys.len(),
            tysv == unnamed_fields_view(tys@),
            toks(out@) == pre + spec_tuple_ty_toks(tysv.take(i as int)),
        decreases tys.len() - i,
    {
        push_spanned(out, copy_string(&tys[i].ty), tys[i].span);
        push_lit(out, ",");
        proof {
            assert(tysv[i as int] == tys@[i as int]@);
            assert(tysv.take(i + 1 as int).drop_last() =~= tysv.take(i as int));
            assert(tysv.take(i + 1 as int).last() == tysv[i as int]);
            assert(toks(out@) =~= pre + spec_tuple_ty_toks(tysv.take(i + 1 as int)));
        }
        i += 1;
    }
    proof {
        assert(tysv.take(tysv.len() as int) =~= tysv);
    }
}

/// Appends the result tokens of the member operation.
fn push_ret(out: &mut Vec<Token>, ret: &Option<Vec<UnnamedField>>)
    ensures
        toks(final(out)@) == toks(old(out)@) + spec_ret_toks(
            match *ret {
                Some(tys) => Some(unnamed_fields_view(tys@)),
                None => None,
            },
        ),
{
    match ret {
        Some(tys) => {
            push_lit(out, "->");
            push_lit(out, "(");
            push_tuple_tys(out, tys);
            push_lit(out, ")");
            proof {
                assert(toks(out@) =~= toks(old(out)@) + spec_ret_toks(
                    Some(unnamed_fields_view(tys@)),
                ));
            }
        },
        None => {
            proof {
                assert(toks(out@) =~= toks(old(out)@) + spec_ret_toks(
                    None::<Seq<SpecUnnamedField>>,
                ));
            }
        },
    }
}

/// Appends the bitwise reads, one per field, in declaration order.
fn push_reads(out: &mut Vec<Token>, reads: &Vec<FieldRead>)
    ensures
        toks(final(out)@) == toks(old(out)@) + spec_read_toks(reads_view(reads@)),
{
    let ghost rsv = reads_view(reads@);
    let ghost pre = toks(out@);
    let mut i: usize = 0;
    while i < reads.len()
        invariant
            i <= reads.len(),
            rsv == reads_view(reads@),
            toks(out@) == pre + spec_read_toks(rsv.take(i as int)),
        decreases reads.len() - i,
    {
        let t = read_text(&reads[i].access);
        push_spanned(out, t, reads[i].span);
        push_lit(out, ",");
        proof {
            assert(rsv[i as int] == reads@[i as int]@);
            assert(rsv.take(i + 1 as int).drop_last() =~= rsv.take(i as int));
            assert(rsv.take(i + 1 as int).last() == rsv[i as int]);
            assert(toks(out@) =~= pre + spec_read_toks(rsv.take(i + 1 as int)));
        }
        i += 1;
    }
    proof {
        assert(rsv.take(rsv.len() as int) =~= rsv);
    }
}

/// Appends the member operation's body: the bypass protocol.
fn push_destructure_body(out: &mut Vec<Token>, p: &DestructureParts)
    ensures
        toks(final(out)@) == toks(old(out)@) + spec_destructure_body(p@),
{
    match &p.ret {
        Some(_) => {
            push_cell_line(out);
            push_lit(out, "unsafe");
            push_lit(out, "{");
            push_view_line(out);
            push_lit(out, "(");
            push_reads(out, &p.reads);
            push_lit(out, ")");
            push_lit(out, "}");
            proof {
                assert(toks(out@) =~= toks(old(out)@) + spec_destructure_body(p@));
            }
        },
        None => {
            push_unit_cell_line(out);
            proof {
                assert(toks(out@) =~= toks(old(out)@) + spec_destructure_body(p@));
            }
        },
    }
}

/// Renders the `destructure` member operation as host source tokens.
pub fn render_destructure(p: &DestructureParts) -> (r: Vec<Token>)
    ensures
        toks(r@) == spec_render_destructure(p@),
{
    let mut out: Vec<Token> = Vec::new();
    push_header(&mut out, &p.ident, &p.generics);
    push_lit(&mut out, "{");
    push_lit(&mut out, "#[inline(always)]");
    push_lit(&mut out, "fn destructure(self)");
    push_ret(&mut out, &p.ret);
    push_lit(&mut out, "{");
    push_destructure_body(&mut out, p);
    push_lit(&mut out, "}");
    push_lit(&mut out, "}");
    proof {
        assert(toks(out@) =~= spec_render_destructure(p@));
    }
    out
}

/// The whole first derivation at the token level: the emitted member
/// operation for a supported shape, or the diagnostic gate's rejection.
pub open spec fn spec_derive_destructure(d: SpecDecl) -> Result<Seq<SpecToken>, DeriveError> {
    match spec_destructure_parts(d) {
        Ok(p) => Ok(spec_render_destructure(p)),
        Err(e) => Err(e),
    }
}

/// Derives the `destructure` member operation for a declaration, as a token
/// stream to splice after the declaration. Succeeds exactly on the record
/// shapes; a tagged union or an untagged union of fields is rejected with its
/// fixed message.
pub fn derive_destructure(d: &Decl) -> (r: Result<Vec<Token>, DeriveError>)
    ensures
        r is Ok <==> d@.data is Struct,
        match r {
            Ok(ts) => spec_derive_destructure(d@) == Ok::<Seq<SpecToken>, DeriveError>(toks(ts@)),
            Err(e) => spec_derive_destructure(d@) == Err::<Seq<SpecToken>, DeriveError>(e),
        },
{
    match destructure_parts(d) {
        Ok(p) => Ok(render_destructure(&p)),
        Err(e) => Err(e),
    }
}

} // verus!
