//! Rendering a generated constructor as source text.
//!
//! The layout is canonical: single spaces between the pieces, the whole
//! definition on one line.  The host side re-lexes this text, so spacing
//! carries no meaning there.

use vstd::prelude::*;
use crate::strings::{join_sep, join_strings};
use crate::synth::{GeneratedConstructor, ShapeKind};
use crate::classify::opt_str_view;

verus! {

/// `s` with a space before it, or nothing for empty `s`.
pub open spec fn spec_sp_before(s: Seq<char>) -> Seq<char> {
    if s.len() == 0 {
        s
    } else {
        " "@ + s
    }
}

/// `s` with a space after it, or nothing for empty `s`.
pub open spec fn spec_sp_after(s: Seq<char>) -> Seq<char> {
    if s.len() == 0 {
        s
    } else {
        s + " "@
    }
}

/// The variant qualifier of the construction expression.
pub open spec fn spec_qual(variant: Option<Seq<char>>) -> Seq<char> {
    match variant {
        None => Seq::empty(),
        Some(v) => "::"@ + v,
    }
}

/// The attribute texts, each followed by a space.
pub open spec fn spec_attrs_text(parts: Seq<Seq<char>>) -> Seq<char>
    decreases parts.len(),
{
    if parts.len() == 0 {
        Seq::empty()
    } else {
        parts[0] + " "@ + spec_attrs_text(parts.drop_first())
    }
}

/// The construction expression of the generated body: the type, the variant
/// qualifier, and the shape-appropriate initializer list.
pub open spec fn spec_construction(g: GeneratedConstructor) -> Seq<char> {
    g.ty_name@ + spec_qual(opt_str_view(g.variant)) + (match g.shape {
        ShapeKind::Unit => Seq::<char>::empty(),
        ShapeKind::Named => if g.inits@.len() == 0 {
            " {}"@
        } else {
            " { "@ + join_sep(g.inits.deep_view(), ", "@) + " }"@
        },
        ShapeKind::Positional => "("@ + join_sep(g.inits.deep_view(), ", "@) + ")"@,
    })
}

/// The full rendered definition: an implementation block holding the one
/// documented, lint-annotated constructor function.
pub open spec fn spec_render(g: GeneratedConstructor) -> Seq<char> {
    "impl"@ + g.impl_generics@ + " "@ + g.ty_name@ + g.ty_generics@
        + spec_sp_before(g.where_clause@) + " { #[doc = \""@ + g.doc@ + "\"] "@ + spec_attrs_text(
        g.lint_attrs.deep_view(),
    ) + spec_sp_after(g.visibility@) + "fn "@ + g.fn_name@ + "("@ + join_sep(
        g.params.deep_view(),
        ", "@,
    ) + ") -> Self { "@ + spec_construction(g) + " } }"@
}

/// Appends `s` preceded by a space, or nothing for empty `s`.
fn append_sp_before(acc: &mut String, s: &str)
    ensures
        final(acc)@ == old(acc)@ + spec_sp_before(s@),
{
    if !s.is_empty() {
        acc.append(" ");
        acc.append(s);
        proof {
            assert(acc@ =~= old(acc)@ + spec_sp_before(s@));
        }
    } else {
        proof {
            assert(acc@ =~= old(acc)@ + spec_sp_before(s@));
        }
    }
}

/// Appends `s` followed by a space, or nothing for empty `s`.
fn append_sp_after(acc: &mut String, s: &str)
    ensures
        final(acc)@ == old(acc)@ + spec_sp_after(s@),
{
    if !s.is_empty() {
        acc.append(s);
        acc.append(" ");
        proof {
            assert(acc@ =~= old(acc)@ + spec_sp_after(s@));
        }
    } else {
        proof {
            assert(acc@ =~= old(acc)@ + spec_sp_after(s@));
        }
    }
}

/// Renders the attribute texts, each followed by a space.
#[verifier::loop_isolation(false)]
fn attrs_text(parts: &Vec<String>) -> (r: String)
    ensures
        r@ == spec_attrs_text(parts.deep_view()),
{
    let ghost dv: Seq<Seq<char>> = parts.deep_view();
    let mut acc = String::new();
    proof {
        assert(dv.skip(0) =~= dv);
        assert(acc@ + spec_attrs_text(dv) =~= spec_attrs_text(dv));
    }
    let mut k: usize = 0;
    while k < parts.len()
        invariant
            dv == parts.deep_view(),
            k <= parts.len(),
            spec_attrs_text(dv) == acc@ + spec_attrs_text(dv.skip(k as int)),
        decreases parts.len() - k,
    {
        proof {
            assert(dv.skip(k as int)[0] == dv[k as int]);
            assert(dv.skip(k as int).drop_first() =~= dv.skip(k + 1 as int));
        }
        let ghost acc0: Seq<char> = acc@;
        acc.append(parts[k].as_str());
        acc.append(" ");
        proof {
            assert(acc@ + spec_attrs_text(dv.skip(k + 1 as int)) =~= acc0 + spec_attrs_text(
                dv.skip(k as int),
            ));
        }
        k = k + 1;
    }
    proof {
        assert(dv.skip(parts@.len() as int) =~= Seq::<Seq<char>>::empty());
        assert(acc@ + spec_attrs_text(Seq::<Seq<char>>::empty()) =~= acc@);
    }
    acc
}

/// Renders one generated constructor as source text.
pub fn render(g: &GeneratedConstructor) -> (r: String)
    ensures
        r@ == spec_render(*g),
{
    let mut acc = String::from_str("impl");
    acc.append(g.impl_generics.as_str());
    acc.append(" ");
    acc.append(g.ty_name.as_str());
    acc.append(g.ty_generics.as_str());
    append_sp_before(&mut acc, g.where_clause.as_str());
    acc.append(" { #[doc = \"");
    acc.append(g.doc.as_str());
    acc.append("\"] ");
    let lints = attrs_text(&g.lint_attrs);
    acc.append(lints.as_str());
    append_sp_after(&mut acc, g.visibility.as_str());
    acc.append("fn ");
    acc.append(g.fn_name.as_str());
    acc.append("(");
    let params = join_strings(&g.params, ", ");
    acc.append(params.as_str());
    acc.append(") -> Self { ");
    acc.append(g.ty_name.as_str());
    match &g.variant {
        Some(v) => {
            acc.append("::");
            acc.append(v.as_str());
        },
        None => {},
    }
    match g.shape {
        ShapeKind::Unit => {},
        ShapeKind::Named => {
            if g.inits.len() == 0 {
                acc.append(" {}");
            } else {
                acc.append(" { ");
                let inits = join_strings(&g.inits, ", ");
                acc.append(inits.as_str());
                acc.append(" }");
            }
        },
        ShapeKind::Positional => {
            acc.append("(");
            let inits = join_strings(&g.inits, ", ");
            acc.append(inits.as_str());
            acc.append(")");
        },
    }
    acc.append(" } }");
    proof {
        assert(acc@ =~= spec_render(*g));
    }
    acc
}

} // verus!
