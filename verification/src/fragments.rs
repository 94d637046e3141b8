//! The generics projector: splits a generic parameter list into the three
//! fragments the emitters need.
//!
//! - the *introduction* fragment keeps each parameter's bounds; it is used
//!   where new generics are introduced (the member operation's owner and the
//!   auxiliary type declaration);
//! - the *application* fragment drops the bounds; it is used in every
//!   use-site reference to the original and the auxiliary type;
//! - the *constraint* fragment is the `where` clause, verbatim.

use vstd::prelude::*;
use crate::ast::{GenericParam, Generics, SpecGenericParam, SpecGenerics};
use crate::token::{lit, push_lit, push_text, toks, SpecToken, Token};

verus! {

/// The introduction tokens of one parameter: its name, then `:` and its
/// bounds verbatim if it has any, then a separating comma.
pub open spec fn spec_intro_param(p: SpecGenericParam) -> Seq<SpecToken> {
    match p.bounds {
        Some(b) => seq![lit(p.name), lit(":"@), lit(b), lit(","@)],
        None => seq![lit(p.name), lit(","@)],
    }
}

/// The introduction tokens of a parameter list, in order.
pub open spec fn spec_intro_params(ps: Seq<SpecGenericParam>) -> Seq<SpecToken>
    decreases ps.len(),
{
    if ps.len() == 0 {
        Seq::empty()
    } else {
        spec_intro_params(ps.drop_last()) + spec_intro_param(ps.last())
    }
}

/// The introduction fragment: the bracketed parameter list with bounds, or
/// nothing when the declaration has no generic parameters.
pub open spec fn spec_intro(g: SpecGenerics) -> Seq<SpecToken> {
    if g.params.len() == 0 {
        Seq::empty()
    } else {
        seq![lit("<"@)] + spec_intro_params(g.params) + seq![lit(">"@)]
    }
}

/// The application tokens of one parameter: its bare name and a comma.
pub open spec fn spec_apply_param(p: SpecGenericParam) -> Seq<SpecToken> {
    seq![lit(p.name), lit(","@)]
}

/// The application tokens of a parameter list, in order.
pub open spec fn spec_apply_params(ps: Seq<SpecGenericParam>) -> Seq<SpecToken>
    decreases ps.len(),
{
    if ps.len() == 0 {
        Seq::empty()
    } else {
        spec_apply_params(ps.drop_last()) + spec_apply_param(ps.last())
    }
}

/// The application fragment: the bracketed parameter list without bounds, or
/// nothing when the declaration has no generic parameters.
pub open spec fn spec_apply(g: SpecGenerics) -> Seq<SpecToken> {
    if g.params.len() == 0 {
        Seq::empty()
    } else {
        seq![lit("<"@)] + spec_apply_params(g.params) + seq![lit(">"@)]
    }
}

/// The constraint fragment: the `where` keyword and the constraint list
/// verbatim, or nothing when the declaration has no constraint clause.
pub open spec fn spec_where(g: SpecGenerics) -> Seq<SpecToken> {
    match g.where_clause {
        Some(w) => seq![lit("where"@), lit(w)],
        None => Seq::empty(),
    }
}

/// The header of an emitted impl block: the introduction fragment on `impl`,
/// the owner type applied to its bare parameters, and the constraint clause.
pub open spec fn spec_header(ident: Seq<char>, g: SpecGenerics) -> Seq<SpecToken> {
    seq![lit("impl"@)] + spec_intro(g) + seq![lit(ident)] + spec_apply(g) + spec_where(g)
}

/// Appends the introduction fragment of `g`.
pub fn push_intro(out: &mut Vec<Token>, g: &Generics)
    ensures
        toks(final(out)@) == toks(old(out)@) + spec_intro(g@),
{
    if g.params.len() == 0 {
        proof {
            assert(toks(out@) =~= toks(old(out)@) + spec_intro(g@));
        }
        return ;
    }
    push_lit(out, "<");
    let mut i: usize = 0;
    while i < g.params.len()
        invariant
            i <= g.params.len(),
            g.params.len() > 0,
            toks(out@) == toks(old(out)@) + seq![lit("<"@)] + spec_intro_params(
                g@.params.take(i as int),
            ),
        decreases g.params.len() - i,
    {
        let p = &g.params[i];
        push_text(out, p.name.clone());
        match &p.bounds {
            Some(b) => {
                push_lit(out, ":");
                push_text(out, b.clone());
            },
            None => {},
        }
        push_lit(out, ",");
        proof {
            assert(g@.params.take(i + 1 as int).drop_last() =~= g@.params.take(i as int));
            assert(g@.params.take(i + 1 as int).last() == g@.params[i as int]);
            assert(g@.params[i as int] == g.params@[i as int]@);
            assert(toks(out@) =~= toks(old(out)@) + seq![lit("<"@)] + spec_intro_params(
                g@.params.take(i + 1 as int),
            ));
        }
        i += 1;
    }
    push_lit(out, ">");
    proof {
        assert(g@.params.take(g@.params.len() as int) =~= g@.params);
        assert(toks(out@) =~= toks(old(out)@) + spec_intro(g@));
    }
}

/// Appends the application fragment of `g`.
pub fn push_apply(out: &mut Vec<Token>, g: &Generics)
    ensures
        toks(final(out)@) == toks(old(out)@) + spec_apply(g@),
{
    if g.params.len() == 0 {
        proof {
            assert(toks(out@) =~= toks(old(out)@) + spec_apply(g@));
        }
        return ;
    }
    push_lit(out, "<");
    let mut i: usize = 0;
    while i < g.params.len()
        invariant
            i <= g.params.len(),
            g.params.len() > 0,
            toks(out@) == toks(old(out)@) + seq![lit("<"@)] + spec_apply_params(
                g@.params.take(i as int),
            ),
        decreases g.params.len() - i,
    {
        push_text(out, g.params[i].name.clone());
        push_lit(out, ",");
        proof {
            assert(g@.params.take(i + 1 as int).drop_last() =~= g@.params.take(i as int));
            assert(g@.params.take(i + 1 as int).last() == g@.params[i as int]);
            assert(g@.params[i as int] == g.params@[i as int]@);
            assert(toks(out@) =~= toks(old(out)@) + seq![lit("<"@)] + spec_apply_params(
                g@.params.take(i + 1 as int),
            ));
        }
        i += 1;
    }
    push_lit(out, ">");
    proof {
        assert(g@.params.take(g@.params.len() as int) =~= g@.params);
        assert(toks(out@) =~= toks(old(out)@) + spec_apply(g@));
    }
}

/// Appends the impl-block header for the owner `ident` with generics `g`.
pub fn push_header(out: &mut Vec<Token>, ident: &String, g: &Generics)
    ensures
        toks(final(out)@) == toks(old(out)@) + spec_header(ident@, g@),
{
    push_lit(out, "impl");
    push_intro(out, g);
    push_text(out, ident.clone());
    push_apply(out, g);
    push_where(out, g);
    proof {
        assert(toks(out@) =~= toks(old(out)@) + spec_header(ident@, g@));
    }
}

/// Appends the constraint fragment of `g`.
pub fn push_where(out: &mut Vec<Token>, g: &Generics)
    ensures
        toks(final(out)@) == toks(old(out)@) + spec_where(g@),
{
    match &g.where_clause {
        Some(w) => {
            push_lit(out, "where");
            push_text(out, w.clone());
            proof {
                assert(toks(out@) =~= toks(old(out)@) + spec_where(g@));
            }
        },
        None => {
            proof {
                assert(toks(out@) =~= toks(old(out)@) + spec_where(g@));
            }
        },
    }
}

} // verus!
