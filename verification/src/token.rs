//! Emitted tokens of host source text, and helpers to build token vectors.

use vstd::prelude::*;
use vstd::string::StringExecFns;

verus! {

/// One emitted token. `span` is `Some(id)` when the token stems from a
/// user-written field and carries that field's source span; it is `None` for
/// scaffolding tokens, which get the call-site span.
#[derive(Debug)]
pub struct Token {
    pub text: String,
    pub span: Option<u64>,
}

/// The mathematical view of a token.
#[verifier::ext_equal]
pub struct SpecToken {
    pub text: Seq<char>,
    pub span: Option<u64>,
}

impl View for Token {
    type V = SpecToken;

    open spec fn view(&self) -> SpecToken {
        SpecToken { text: self.text@, span: self.span }
    }
}

/// The view of a token vector: the sequence of token views.
pub open spec fn toks(ts: Seq<Token>) -> Seq<SpecToken> {
    ts.map_values(|t: Token| t@)
}

/// A scaffolding token (call-site span).
pub open spec fn lit(text: Seq<char>) -> SpecToken {
    SpecToken { text, span: None }
}

/// A token that stems from the field whose span is `span`.
pub open spec fn spanned(text: Seq<char>, span: u64) -> SpecToken {
    SpecToken { text, span: Some(span) }
}

/// Mapping the view over a token sequence commutes with `push`.
pub proof fn lemma_toks_push(s: Seq<Token>, t: Token)
    ensures
        toks(s.push(t)) == toks(s).push(t@),
{
    assert(toks(s.push(t)) =~= toks(s).push(t@));
}

/// Appends one token.
pub fn push_tok(out: &mut Vec<Token>, t: Token)
    ensures
        toks(final(out)@) == toks(old(out)@).push(t@),
{
    let ghost before = out@;
    let ghost tv = t@;
    out.push(t);
    proof {
        lemma_toks_push(before, out@[before.len() as int]);
        assert(toks(out@) == toks(before).push(tv));
    }
}

/// Appends one scaffolding token with the given text.
pub fn push_lit(out: &mut Vec<Token>, s: &str)
    ensures
        toks(final(out)@) == toks(old(out)@).push(lit(s@)),
{
    push_tok(out, Token { text: s.to_owned(), span: None });
}

/// Appends one scaffolding token carrying the given owned text.
pub fn push_text(out: &mut Vec<Token>, s: String)
    ensures
        toks(final(out)@) == toks(old(out)@).push(lit(s@)),
{
    push_tok(out, Token { text: s, span: None });
}

/// Appends one token that carries a field's span.
pub fn push_spanned(out: &mut Vec<Token>, s: String, span: u64)
    ensures
        toks(final(out)@) == toks(old(out)@).push(spanned(s@, span)),
{
    push_tok(out, Token { text: s, span: Some(span) });
}

/// Appends a copy of every token of `ts`, in order.
pub fn push_all(out: &mut Vec<Token>, ts: &Vec<Token>)
    ensures
        toks(final(out)@) == toks(old(out)@) + toks(ts@),
{
    let mut i: usize = 0;
    while i < ts.len()
        invariant
            i <= ts.len(),
            toks(out@) == toks(old(out)@) + toks(ts@.take(i as int)),
        decreases ts.len() - i,
    {
        let t = Token { text: ts[i].text.clone(), span: ts[i].span };
        proof {
            assert(t@ =~= ts@[i as int]@);
        }
        push_tok(out, t);
        proof {
            assert(toks(ts@.take(i + 1 as int)) =~= toks(ts@.take(i as int)).push(ts@[i as int]@));
            assert(toks(out@) =~= toks(old(out)@) + toks(ts@.take(i + 1 as int)));
        }
        i += 1;
    }
    proof {
        assert(ts@.take(ts@.len() as int) =~= ts@);
    }
}

/// The statement that places the consumed instance into the no-cleanup cell.
pub open spec fn cell_line() -> Seq<char> {
    "let maybe_uninit = ::std::mem::MaybeUninit::new(self);"@
}

/// The no-cleanup cell statement for shapes with no fields to read: the cell
/// is constructed and dropped unused.
pub open spec fn unit_cell_line() -> Seq<char> {
    "let _ = ::std::mem::MaybeUninit::new(self);"@
}

/// The statement that obtains the read-only view into the still-live bit
/// pattern inside the cell.
pub open spec fn view_line() -> Seq<char> {
    "let self_ref = &*maybe_uninit.as_ptr();"@
}

/// The expression the match of `remove_trait_impls` scrutinizes on a tagged
/// union: the read-only view into the cell.
pub open spec fn match_line() -> Seq<char> {
    "match &*maybe_uninit.as_ptr()"@
}

/// Appends the cell-construction statement.
pub fn push_cell_line(out: &mut Vec<Token>)
    ensures
        toks(final(out)@) == toks(old(out)@).push(lit(cell_line())),
{
    push_lit(out, "let maybe_uninit = ::std::mem::MaybeUninit::new(self);");
}

/// Appends the cell-construction statement of field-less shapes.
pub fn push_unit_cell_line(out: &mut Vec<Token>)
    ensures
        toks(final(out)@) == toks(old(out)@).push(lit(unit_cell_line())),
{
    push_lit(out, "let _ = ::std::mem::MaybeUninit::new(self);");
}

/// Appends the read-only-view statement.
pub fn push_view_line(out: &mut Vec<Token>)
    ensures
        toks(final(out)@) == toks(old(out)@).push(lit(view_line())),
{
    push_lit(out, "let self_ref = &*maybe_uninit.as_ptr();");
}

/// Appends the match scrutinee of the tagged-union body.
pub fn push_match_line(out: &mut Vec<Token>)
    ensures
        toks(final(out)@) == toks(old(out)@).push(lit(match_line())),
{
    push_lit(out, "match &*maybe_uninit.as_ptr()");
}

/// The source text denoted by a token sequence: the token texts joined by
/// single spaces.
pub open spec fn spec_source(ts: Seq<SpecToken>) -> Seq<char>
    decreases ts.len(),
{
    if ts.len() == 0 {
        Seq::empty()
    } else if ts.len() == 1 {
        ts[0].text
    } else {
        spec_source(ts.drop_last()) + " "@ + ts.last().text
    }
}

/// Renders a token vector as one line of source text, token texts joined by
/// single spaces.
pub fn render_source(ts: &Vec<Token>) -> (r: String)
    ensures
        r@ == spec_source(toks(ts@)),
{
    let mut r = String::new();
    let mut i: usize = 0;
    while i < ts.len()
        invariant
            i <= ts.len(),
            r@ == spec_source(toks(ts@).take(i as int)),
        decreases ts.len() - i,
    {
        if i > 0 {
            r.append(" ");
        }
        r.append(ts[i].text.as_str());
        proof {
            assert(toks(ts@).take(i + 1 as int).drop_last() =~= toks(ts@).take(i as int));
            assert(toks(ts@).take(i + 1 as int).last() == ts@[i as int]@);
        }
        i += 1;
    }
    proof {
        assert(toks(ts@).take(ts@.len() as int) =~= toks(ts@));
    }
    r
}

} // verus!
