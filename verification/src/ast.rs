//! The input model: a type declaration as the engine sees it.
//!
//! A declaration carries the declared identifier, its generic parameter list
//! (with a verbatim constraint clause), and its shape: named fields,
//! positional fields, no fields, a list of variants, or an untagged union of
//! fields. Field names, field types, generic parameter names and bounds are
//! all kept verbatim as source text; each field also carries an opaque source
//! span identifier so that emitted tokens can point back at the user's code.

use vstd::prelude::*;

verus! {

/// Whether a generic parameter is a lifetime parameter or a type parameter.
#[derive(Clone, Copy, PartialEq, Eq, Structural, Debug)]
pub enum ParamKind {
    Lifetime,
    Type,
}

/// One generic parameter as written: its name (for lifetimes, including the
/// leading tick) and its optional bounds, verbatim.
pub struct GenericParam {
    pub kind: ParamKind,
    pub name: String,
    pub bounds: Option<String>,
}

/// The mathematical view of a generic parameter.
#[verifier::ext_equal]
pub struct SpecGenericParam {
    pub kind: ParamKind,
    pub name: Seq<char>,
    pub bounds: Option<Seq<char>>,
}

impl View for GenericParam {
    type V = SpecGenericParam;

    open spec fn view(&self) -> SpecGenericParam {
        SpecGenericParam {
            kind: self.kind,
            name: self.name@,
            bounds: match self.bounds {
                Some(b) => Some(b@),
                None => None,
            },
        }
    }
}

/// The view of a sequence of generic parameters.
pub open spec fn params_view(ps: Seq<GenericParam>) -> Seq<SpecGenericParam> {
    ps.map_values(|p: GenericParam| p@)
}

/// Mapping the view over a parameter sequence commutes with `push`.
pub proof fn lemma_params_view_push(s: Seq<GenericParam>, p: GenericParam)
    ensures
        params_view(s.push(p)) == params_view(s).push(p@),
{
    assert(params_view(s.push(p)) =~= params_view(s).push(p@));
}

/// The generic parameter list of a declaration, plus the optional constraint
/// clause (the list written after the `where` keyword, verbatim).
pub struct Generics {
    pub params: Vec<GenericParam>,
    pub where_clause: Option<String>,
}

/// The mathematical view of a generic parameter list.
#[verifier::ext_equal]
pub struct SpecGenerics {
    pub params: Seq<SpecGenericParam>,
    pub where_clause: Option<Seq<char>>,
}

impl View for Generics {
    type V = SpecGenerics;

    open spec fn view(&self) -> SpecGenerics {
        SpecGenerics {
            params: params_view(self.params@),
            where_clause: match self.where_clause {
                Some(w) => Some(w@),
                None => None,
            },
        }
    }
}

/// One named field: its name, its declared type (verbatim source text), and
/// the span of the field in the source declaration.
pub struct NamedField {
    pub name: String,
    pub ty: String,
    pub span: u64,
}

/// The mathematical view of a named field.
#[verifier::ext_equal]
pub struct SpecNamedField {
    pub name: Seq<char>,
    pub ty: Seq<char>,
    pub span: u64,
}

impl View for NamedField {
    type V = SpecNamedField;

    open spec fn view(&self) -> SpecNamedField {
        SpecNamedField { name: self.name@, ty: self.ty@, span: self.span }
    }
}

/// One positional field: its declared type (verbatim) and its span. Its
/// accessor is its ordinal position in the field list.
pub struct UnnamedField {
    pub ty: String,
    pub span: u64,
}

/// The mathematical view of a positional field.
#[verifier::ext_equal]
pub struct SpecUnnamedField {
    pub ty: Seq<char>,
    pub span: u64,
}

impl View for UnnamedField {
    type V = SpecUnnamedField;

    open spec fn view(&self) -> SpecUnnamedField {
        SpecUnnamedField { ty: self.ty@, span: self.span }
    }
}

/// The view of a sequence of named fields.
pub open spec fn named_fields_view(fs: Seq<NamedField>) -> Seq<SpecNamedField> {
    fs.map_values(|f: NamedField| f@)
}

/// Mapping the view over a named-field sequence commutes with `push`.
pub proof fn lemma_named_fields_view_push(s: Seq<NamedField>, f: NamedField)
    ensures
        named_fields_view(s.push(f)) == named_fields_view(s).push(f@),
{
    assert(named_fields_view(s.push(f)) =~= named_fields_view(s).push(f@));
}

/// The view of a sequence of positional fields.
pub open spec fn unnamed_fields_view(fs: Seq<UnnamedField>) -> Seq<SpecUnnamedField> {
    fs.map_values(|f: UnnamedField| f@)
}

/// Mapping the view over a positional-field sequence commutes with `push`.
pub proof fn lemma_unnamed_fields_view_push(s: Seq<UnnamedField>, f: UnnamedField)
    ensures
        unnamed_fields_view(s.push(f)) == unnamed_fields_view(s).push(f@),
{
    assert(unnamed_fields_view(s.push(f)) =~= unnamed_fields_view(s).push(f@));
}

/// The field list of a record or of one variant: named fields, positional
/// fields, or no field list at all (the unit form).
pub enum FieldList {
    Named(Vec<NamedField>),
    Unnamed(Vec<UnnamedField>),
    Unit,
}

/// The mathematical view of a field list.
#[verifier::ext_equal]
pub enum SpecFieldList {
    Named(Seq<SpecNamedField>),
    Unnamed(Seq<SpecUnnamedField>),
    Unit,
}

impl View for FieldList {
    type V = SpecFieldList;

    open spec fn view(&self) -> SpecFieldList {
        match self {
            FieldList::Named(fs) => SpecFieldList::Named(named_fields_view(fs@)),
            FieldList::Unnamed(fs) => SpecFieldList::Unnamed(unnamed_fields_view(fs@)),
            FieldList::Unit => SpecFieldList::Unit,
        }
    }
}

/// One variant of a tagged union: its identifier and its own field list.
pub struct Variant {
    pub name: String,
    pub fields: FieldList,
}

/// The mathematical view of a variant.
#[verifier::ext_equal]
pub struct SpecVariant {
    pub name: Seq<char>,
    pub fields: SpecFieldList,
}

impl View for Variant {
    type V = SpecVariant;

    open spec fn view(&self) -> SpecVariant {
        SpecVariant { name: self.name@, fields: self.fields@ }
    }
}

/// The view of a sequence of variants.
pub open spec fn variants_view(vs: Seq<Variant>) -> Seq<SpecVariant> {
    vs.map_values(|v: Variant| v@)
}

/// Mapping the view over a variant sequence commutes with `push`.
pub proof fn lemma_variants_view_push(s: Seq<Variant>, v: Variant)
    ensures
        variants_view(s.push(v)) == variants_view(s).push(v@),
{
    assert(variants_view(s.push(v)) =~= variants_view(s).push(v@));
}

/// The top-level form of a declaration: a record with a field list, a tagged
/// union with variants, or an untagged union of fields (which the engine
/// rejects).
pub enum Data {
    Struct(FieldList),
    Enum(Vec<Variant>),
    Union,
}

/// The mathematical view of a declaration's top-level form.
#[verifier::ext_equal]
pub enum SpecData {
    Struct(SpecFieldList),
    Enum(Seq<SpecVariant>),
    Union,
}

impl View for Data {
    type V = SpecData;

    open spec fn view(&self) -> SpecData {
        match self {
            Data::Struct(fl) => SpecData::Struct(fl@),
            Data::Enum(vs) => SpecData::Enum(variants_view(vs@)),
            Data::Union => SpecData::Union,
        }
    }
}

/// A whole annotated declaration: identifier, generics, and shape.
pub struct Decl {
    pub name: String,
    pub generics: Generics,
    pub data: Data,
}

/// The mathematical view of a declaration.
#[verifier::ext_equal]
pub struct SpecDecl {
    pub name: Seq<char>,
    pub generics: SpecGenerics,
    pub data: SpecData,
}

impl View for Decl {
    type V = SpecDecl;

    open spec fn view(&self) -> SpecDecl {
        SpecDecl { name: self.name@, generics: self.generics@, data: self.data@ }
    }
}

/// Copies a string, keeping its characters.
pub fn copy_string(s: &String) -> (r: String)
    ensures
        r@ == s@,
{
    s.clone()
}

/// Copies an optional string, keeping its characters.
pub fn copy_opt_string(s: &Option<String>) -> (r: Option<String>)
    ensures
        match (s, r) {
            (Some(a), Some(b)) => a@ == b@,
            (None, None) => true,
            _ => false,
        },
{
    match s {
        Some(a) => Some(a.clone()),
        None => None,
    }
}

/// Copies a generic parameter, keeping its view.
pub fn copy_param(p: &GenericParam) -> (r: GenericParam)
    ensures
        r@ == p@,
{
    let r = GenericParam { kind: p.kind, name: copy_string(&p.name), bounds: copy_opt_string(&p.bounds) };
    proof {
        assert(r@ =~= p@);
    }
    r
}

/// Copies a generic parameter list, keeping its view.
pub fn copy_generics(g: &Generics) -> (r: Generics)
    ensures
        r@ == g@,
{
    let mut params: Vec<GenericParam> = Vec::new();
    let mut i: usize = 0;
    while i < g.params.len()
        invariant
            i <= g.params.len(),
            params_view(params@) == params_view(g.params@).take(i as int),
        decreases g.params.len() - i,
    {
        let ghost before = params@;
        let p = copy_param(&g.params[i]);
        let ghost pv = p@;
        params.push(p);
        proof {
            lemma_params_view_push(before, params@[before.len() as int]);
            assert(params_view(g.params@).take(i + 1 as int) =~= params_view(g.params@).take(
                i as int,
            ).push(params_view(g.params@)[i as int]));
            assert(params_view(g.params@)[i as int] == g.params@[i as int]@);
            assert(params_view(params@) == params_view(g.params@).take(i + 1 as int));
        }
        i += 1;
    }
    let r = Generics { params, where_clause: copy_opt_string(&g.where_clause) };
    proof {
        assert(params_view(g.params@).take(g.params@.len() as int) =~= params_view(g.params@));
        assert(r@ =~= g@);
    }
    r
}

/// Copies a named-field list, keeping its view.
pub fn copy_named_fields(fs: &Vec<NamedField>) -> (r: Vec<NamedField>)
    ensures
        named_fields_view(r@) == named_fields_view(fs@),
{
    let mut r: Vec<NamedField> = Vec::new();
    let mut i: usize = 0;
    while i < fs.len()
        invariant
            i <= fs.len(),
            named_fields_view(r@) == named_fields_view(fs@).take(i as int),
        decreases fs.len() - i,
    {
        let ghost before = r@;
        r.push(NamedField { name: copy_string(&fs[i].name), ty: copy_string(&fs[i].ty), span: fs[i].span });
        proof {
            lemma_named_fields_view_push(before, r@[before.len() as int]);
            assert(named_fields_view(fs@).take(i + 1 as int) =~= named_fields_view(fs@).take(
                i as int,
            ).push(named_fields_view(fs@)[i as int]));
            assert(r@[before.len() as int]@ =~= named_fields_view(fs@)[i as int]);
        }
        i += 1;
    }
    proof {
        assert(named_fields_view(fs@).take(fs@.len() as int) =~= named_fields_view(fs@));
    }
    r
}

/// Copies a positional-field list, keeping its view.
pub fn copy_unnamed_fields(fs: &Vec<UnnamedField>) -> (r: Vec<UnnamedField>)
    ensures
        unnamed_fields_view(r@) == unnamed_fields_view(fs@),
{
    let mut r: Vec<UnnamedField> = Vec::new();
    let mut i: usize = 0;
    while i < fs.len()
        invariant
            i <= fs.len(),
            unnamed_fields_view(r@) == unnamed_fields_view(fs@).take(i as int),
        decreases fs.len() - i,
    {
        let ghost before = r@;
        r.push(UnnamedField { ty: copy_string(&fs[i].ty), span: fs[i].span });
        proof {
            lemma_unnamed_fields_view_push(before, r@[before.len() as int]);
            assert(unnamed_fields_view(fs@).take(i + 1 as int) =~= unnamed_fields_view(fs@).take(
                i as int,
            ).push(unnamed_fields_view(fs@)[i as int]));
            assert(r@[before.len() as int]@ =~= unnamed_fields_view(fs@)[i as int]);
        }
        i += 1;
    }
    proof {
        assert(unnamed_fields_view(fs@).take(fs@.len() as int) =~= unnamed_fields_view(fs@));
    }
    r
}

/// Copies a field list, keeping its view.
pub fn copy_field_list(fl: &FieldList) -> (r: FieldList)
    ensures
        r@ == fl@,
{
    match fl {
        FieldList::Named(fs) => FieldList::Named(copy_named_fields(fs)),
        FieldList::Unnamed(fs) => FieldList::Unnamed(copy_unnamed_fields(fs)),
        FieldList::Unit => FieldList::Unit,
    }
}

/// Copies a variant, keeping its view.
pub fn copy_variant(v: &Variant) -> (r: Variant)
    ensures
        r@ == v@,
{
    let r = Variant { name: copy_string(&v.name), fields: copy_field_list(&v.fields) };
    proof {
        assert(r@ =~= v@);
    }
    r
}

/// Copies a variant list, keeping its view.
pub fn copy_variants(vs: &Vec<Variant>) -> (r: Vec<Variant>)
    ensures
        variants_view(r@) == variants_view(vs@),
{
    let mut r: Vec<Variant> = Vec::new();
    let mut i: usize = 0;
    while i < vs.len()
        invariant
            i <= vs.len(),
            variants_view(r@) == variants_view(vs@).take(i as int),
        decreases vs.len() - i,
    {
        let ghost before = r@;
        let v = copy_variant(&vs[i]);
        r.push(v);
        proof {
            lemma_variants_view_push(before, r@[before.len() as int]);
            assert(variants_view(vs@).take(i + 1 as int) =~= variants_view(vs@).take(i as int).push(
                variants_view(vs@)[i as int],
            ));
            assert(r@[before.len() as int]@ == variants_view(vs@)[i as int]);
        }
        i += 1;
    }
    proof {
        assert(variants_view(vs@).take(vs@.len() as int) =~= variants_view(vs@));
    }
    r
}

/// Copies a declaration's top-level form, keeping its view.
pub fn copy_data(data: &Data) -> (r: Data)
    ensures
        r@ == data@,
{
    match data {
        Data::Struct(fl) => Data::Struct(copy_field_list(fl)),
        Data::Enum(vs) => Data::Enum(copy_variants(vs)),
        Data::Union => Data::Union,
    }
}

} // verus!
