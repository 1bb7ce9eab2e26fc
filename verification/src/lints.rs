//! Lint-attribute propagation.
//!
//! Generated code sits in a new scope that does not inherit the subject
//! type's lint suppressions, so the directives among the type's attributes —
//! `allow`, `deny`, `forbid`, `warn`, plainly or under `cfg_attr` — are
//! carried over onto the generated constructor, in order; everything else is
//! left behind.

use vstd::prelude::*;
use crate::ast::{Attr, Meta, path_is, ident_path_is};

verus! {

/// Whether an entry is a direct lint-control directive: a list under one of
/// the four severity names.
pub open spec fn spec_is_lint(m: Meta) -> bool {
    match m {
        Meta::List(p, _) => path_is(p, "allow"@) || path_is(p, "deny"@) || path_is(p, "forbid"@)
            || path_is(p, "warn"@),
        _ => false,
    }
}

/// Whether an entry is a direct lint-control directive.
pub fn is_lint(m: &Meta) -> (r: bool)
    ensures
        r == spec_is_lint(*m),
{
    match m {
        Meta::List(p, _) => ident_path_is(p, "allow") || ident_path_is(p, "deny") || ident_path_is(
            p,
            "forbid",
        ) || ident_path_is(p, "warn"),
        _ => false,
    }
}

/// Whether an entry is a conditionally applied lint directive: `cfg_attr`
/// whose arguments are exactly a condition and a lint directive.
pub open spec fn spec_is_cfg_attr_lint(m: Meta) -> bool {
    match m {
        Meta::List(p, args) => path_is(p, "cfg_attr"@) && match args {
            Some(items) => items@.len() == 2 && spec_is_lint(items@[1]),
            None => false,
        },
        _ => false,
    }
}

/// Whether an entry is a conditionally applied lint directive.
pub fn is_cfg_attr_lint(m: &Meta) -> (r: bool)
    ensures
        r == spec_is_cfg_attr_lint(*m),
{
    match m {
        Meta::List(p, Some(items)) => ident_path_is(p, "cfg_attr") && items.len() == 2 && is_lint(
            &items[1],
        ),
        _ => false,
    }
}

/// Whether an attribute is carried onto generated code.
pub open spec fn spec_keeps_attr(a: Attr) -> bool {
    spec_is_lint(a.meta) || spec_is_cfg_attr_lint(a.meta)
}

/// The source texts of the lint-control attributes among `attrs`, in order.
pub open spec fn spec_lint_attr_texts(attrs: Seq<Attr>) -> Seq<Seq<char>>
    decreases attrs.len(),
{
    if attrs.len() == 0 {
        Seq::empty()
    } else {
        let rest = spec_lint_attr_texts(attrs.drop_first());
        if spec_keeps_attr(attrs[0]) {
            seq![attrs[0].text@] + rest
        } else {
            rest
        }
    }
}

/// Filters an attribute list down to the lint-control directives, keeping
/// their order and their exact source text.
pub fn collect_parent_lint_attrs(attrs: &Vec<Attr>) -> (r: Vec<String>)
    ensures
        r.deep_view() == spec_lint_attr_texts(attrs@),
{
    let ghost all: Seq<Attr> = attrs@;
    let mut out: Vec<String> = Vec::new();
    proof {
        assert(all.skip(0) =~= all);
        assert(out.deep_view() + spec_lint_attr_texts(all) =~= spec_lint_attr_texts(all));
    }
    let mut i: usize = 0;
    while i < attrs.len()
        invariant
            all == attrs@,
            i <= attrs.len(),
            spec_lint_attr_texts(all) == out.deep_view() + spec_lint_attr_texts(
                all.skip(i as int),
            ),
        decreases attrs.len() - i,
    {
        proof {
            assert(all.skip(i as int)[0] == all[i as int]);
            assert(all.skip(i as int).drop_first() =~= all.skip(i + 1 as int));
        }
        let a = &attrs[i];
        if is_lint(&a.meta) || is_cfg_attr_lint(&a.meta) {
            let ghost pre: Seq<Seq<char>> = out.deep_view();
            out.push(a.text.clone());
            proof {
                assert(out.deep_view() =~= pre + seq![all[i as int].text@]);
                assert((pre + seq![all[i as int].text@]) + spec_lint_attr_texts(
                    all.skip(i + 1 as int),
                ) =~= pre + (seq![all[i as int].text@] + spec_lint_attr_texts(
                    all.skip(i + 1 as int),
                )));
            }
        }
        i = i + 1;
    }
    proof {
        assert(all.skip(attrs@.len() as int) =~= Seq::<Attr>::empty());
        assert(out.deep_view() + spec_lint_attr_texts(Seq::<Attr>::empty()) =~= out.deep_view());
    }
    out
}

} // verus!
