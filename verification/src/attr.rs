//! Parsing of the `Demo(...)` configuration wrapper attribute.
//!
//! A field may carry at most one wrapper attribute holding one of: the bare
//! markers `default` and `into`, or the key–value entries
//! `into_iter = "<type>"` and `value = "<expr>"`.  At type level the single
//! recognized entry is `visibility = "<visibility>"`.  String payloads are
//! re-checked by the host language's lexer and visibility parser; any
//! unknown entry is a fatal error.

use vstd::prelude::*;
use crate::ast::{Attr, AttrStyle, Meta, MetaValue, meta_path, meta_path_ref, path_is, path_last_is,
    path_text, path_to_string, ident_path_is, ident_path_last_is};
use crate::error::{DemoError, ErrorModel};

verus! {

/// Names the result of lexing a text with `proc_macro2::TokenStream::from_str`:
/// whether the text breaks into tokens depends on the text alone.
pub uninterp spec fn lexes_as_tokens(s: Seq<char>) -> bool;

/// Relies on `proc_macro2::TokenStream::from_str` (through `str::parse`):
/// the text lexes as a token stream or fails with a lexing error, depending
/// on the text alone.
#[verifier::external_body]
fn text_lexes(s: &str) -> (r: bool)
    ensures
        r == lexes_as_tokens(s@),
{
    s.parse::<proc_macro2::TokenStream>().is_ok()
}

/// Names the result of `syn::parse_str::<syn::Visibility>`: whether the text
/// parses as a visibility specifier depends on the text alone.
pub uninterp spec fn parses_as_visibility(s: Seq<char>) -> bool;

/// Relies on `syn::parse_str::<syn::Visibility>`: the text parses as a
/// visibility specifier or not, depending on the text alone; the empty text
/// parses as inherited (private) visibility.
#[verifier::external_body]
fn text_parses_as_visibility(s: &str) -> (r: bool)
    ensures
        r == parses_as_visibility(s@),
        s@.len() == 0 ==> r,
{
    syn::parse_str::<syn::Visibility>(s).is_ok()
}

/// A field's parsed configuration: substitute the type's default, accept a
/// convertible input, accept an iterable of the given element type, or
/// splice the given expression instead of taking a parameter.
pub enum FieldAttr {
    Default,
    Into,
    IntoIter(String),
    Value(String),
}

/// The mathematical value of a field configuration.
pub enum FieldAttrModel {
    Default,
    Into,
    IntoIter(Seq<char>),
    Value(Seq<char>),
}

impl View for FieldAttr {
    type V = FieldAttrModel;

    open spec fn view(&self) -> FieldAttrModel {
        match self {
            FieldAttr::Default => FieldAttrModel::Default,
            FieldAttr::Into => FieldAttrModel::Into,
            FieldAttr::IntoIter(s) => FieldAttrModel::IntoIter(s@),
            FieldAttr::Value(s) => FieldAttrModel::Value(s@),
        }
    }
}

pub open spec fn opt_attr_view(o: Option<FieldAttr>) -> Option<FieldAttrModel> {
    match o {
        Some(a) => Some(a@),
        None => None,
    }
}

/// Whether an attribute is addressed to this generator when it stands on a
/// field: an outer attribute whose path ends in the wrapper name.
pub open spec fn field_candidate(a: Attr) -> bool {
    a.style is Outer && path_last_is(meta_path(a.meta), "Demo"@)
}

/// The configuration that one entry of the wrapper denotes, or the error it
/// raises.
pub open spec fn demo_item_config(item: Meta) -> Result<FieldAttrModel, ErrorModel> {
    match item {
        Meta::Path(p) => if path_is(p, "default"@) {
            Ok(FieldAttrModel::Default)
        } else if path_is(p, "into"@) {
            Ok(FieldAttrModel::Into)
        } else {
            Err(ErrorModel::UnrecognizedOption(path_text(p)))
        },
        Meta::NameValue(p, v) => match v {
            MetaValue::Str(s) => if !lexes_as_tokens(s@) {
                Err(ErrorModel::EmbeddedExpressionSyntaxError(s@))
            } else if path_is(p, "into_iter"@) {
                Ok(FieldAttrModel::IntoIter(s@))
            } else if path_is(p, "value"@) {
                Ok(FieldAttrModel::Value(s@))
            } else {
                Err(ErrorModel::UnrecognizedOption(path_text(p)))
            },
            MetaValue::Other => Err(ErrorModel::UnrecognizedOption(path_text(p))),
        },
        Meta::List(p, _) => Err(ErrorModel::UnrecognizedOption(path_text(p))),
    }
}

/// Folds the entries of one wrapper over the running configuration; a later
/// entry replaces an earlier one, and the first bad entry aborts.
pub open spec fn demo_items_fold(items: Seq<Meta>, acc: Option<FieldAttrModel>) -> Result<
    Option<FieldAttrModel>,
    ErrorModel,
>
    decreases items.len(),
{
    if items.len() == 0 {
        Ok(acc)
    } else {
        match demo_item_config(items[0]) {
            Ok(cfg) => demo_items_fold(items.drop_first(), Some(cfg)),
            Err(e) => Err(e),
        }
    }
}

/// Folds a field's attribute list over the running configuration: wrapper
/// attributes are processed in order, all others are left for the host; a
/// second wrapper attribute is a fatal error.
pub open spec fn field_attr_fold(attrs: Seq<Attr>, acc: Option<FieldAttrModel>) -> Result<
    Option<FieldAttrModel>,
    ErrorModel,
>
    decreases attrs.len(),
{
    if attrs.len() == 0 {
        Ok(acc)
    } else {
        let a = attrs[0];
        if !field_candidate(a) {
            field_attr_fold(attrs.drop_first(), acc)
        } else {
            match a.meta {
                Meta::List(_, args) => if acc is Some {
                    Err(ErrorModel::MultipleConfigAttributes)
                } else {
                    match args {
                        Some(items) => match demo_items_fold(items@, acc) {
                            Ok(res) => field_attr_fold(attrs.drop_first(), res),
                            Err(e) => Err(e),
                        },
                        None => Err(ErrorModel::UnrecognizedOption(a.text@)),
                    }
                },
                _ => if path_is(meta_path(a.meta), "Demo"@) {
                    Err(ErrorModel::UnrecognizedOption(a.text@))
                } else {
                    field_attr_fold(attrs.drop_first(), acc)
                },
            }
        }
    }
}

/// The configuration that a field's whole attribute list denotes: at most
/// one wrapper attribute, whose last entry wins.
pub open spec fn spec_field_attr(attrs: Seq<Attr>) -> Result<Option<FieldAttrModel>, ErrorModel> {
    field_attr_fold(attrs, None)
}

pub open spec fn parse_result_view(r: Result<Option<FieldAttr>, DemoError>) -> Result<
    Option<FieldAttrModel>,
    ErrorModel,
> {
    match r {
        Ok(o) => Ok(opt_attr_view(o)),
        Err(e) => Err(e@),
    }
}

/// The initializer expression for configuration `a` and parameter `name`.
pub open spec fn spec_as_tokens(a: FieldAttrModel, name: Seq<char>) -> Seq<char> {
    match a {
        FieldAttrModel::Default => "::core::default::Default::default()"@,
        FieldAttrModel::Into => "::core::convert::Into::into("@ + name + ")"@,
        FieldAttrModel::IntoIter(_) =>
            "::core::iter::Iterator::collect(::core::iter::IntoIterator::into_iter("@ + name
            + "))"@,
        FieldAttrModel::Value(s) => s,
    }
}

/// Reads one entry of a field-level wrapper.
fn demo_item(item: &Meta) -> (r: Result<FieldAttr, DemoError>)
    ensures
        match r {
            Ok(c) => demo_item_config(*item) == Ok::<FieldAttrModel, ErrorModel>(c@),
            Err(e) => demo_item_config(*item) == Err::<FieldAttrModel, ErrorModel>(e@),
        },
{
    match item {
        Meta::Path(p) => {
            if ident_path_is(p, "default") {
                Ok(FieldAttr::Default)
            } else if ident_path_is(p, "into") {
                Ok(FieldAttr::Into)
            } else {
                Err(DemoError::UnrecognizedOption(path_to_string(p)))
            }
        },
        Meta::NameValue(p, v) => {
            match v {
                MetaValue::Str(s) => {
                    if !text_lexes(s.as_str()) {
                        Err(DemoError::EmbeddedExpressionSyntaxError(s.clone()))
                    } else if ident_path_is(p, "into_iter") {
                        Ok(FieldAttr::IntoIter(s.clone()))
                    } else if ident_path_is(p, "value") {
                        Ok(FieldAttr::Value(s.clone()))
                    } else {
                        Err(DemoError::UnrecognizedOption(path_to_string(p)))
                    }
                },
                MetaValue::Other => Err(DemoError::UnrecognizedOption(path_to_string(p))),
            }
        },
        Meta::List(p, _) => Err(DemoError::UnrecognizedOption(path_to_string(p))),
    }
}

impl FieldAttr {
    /// The initializer expression a configuration contributes for a field
    /// whose parameter (if any) is named `name`.
    pub fn as_tokens(&self, name: &str) -> (r: String)
        ensures
            r@ == spec_as_tokens(self@, name@),
    {
        match self {
            FieldAttr::Default => String::from_str("::core::default::Default::default()"),
            FieldAttr::Into => {
                let r = String::from_str("::core::convert::Into::into(").concat(name).concat(")");
                proof {
                    assert(r@ =~= spec_as_tokens(self@, name@));
                }
                r
            },
            FieldAttr::IntoIter(_) => {
                let r = String::from_str(
                    "::core::iter::Iterator::collect(::core::iter::IntoIterator::into_iter(",
                ).concat(name).concat("))");
                proof {
                    assert(r@ =~= spec_as_tokens(self@, name@));
                }
                r
            },
            FieldAttr::Value(s) => s.clone(),
        }
    }

    /// Parses a field's attribute list into its configuration, or fails with
    /// the first fatal error.
    pub fn parse(attrs: &Vec<Attr>) -> (r: Result<Option<FieldAttr>, DemoError>)
        ensures
            parse_result_view(r) == spec_field_attr(attrs@),
    {
        let ghost all: Seq<Attr> = attrs@;
        proof {
            assert(all.skip(0) =~= all);
        }
        let mut result: Option<FieldAttr> = None;
        let mut i: usize = 0;
        while i < attrs.len()
            invariant
                all == attrs@,
                i <= attrs.len(),
                field_attr_fold(all.skip(i as int), opt_attr_view(result)) == spec_field_attr(all),
            decreases attrs.len() - i,
        {
            proof {
                assert(all.skip(i as int)[0] == all[i as int]);
                assert(all.skip(i as int).drop_first() =~= all.skip(i + 1 as int));
            }
            let a = &attrs[i];
            let candidate = matches!(a.style, AttrStyle::Outer) && ident_path_last_is(
                meta_path_ref(&a.meta),
                "Demo",
            );
            if candidate {
                match &a.meta {
                    Meta::List(_, args) => {
                        if result.is_some() {
                            return Err(DemoError::MultipleConfigAttributes);
                        }
                        match args {
                            None => {
                                return Err(DemoError::UnrecognizedOption(a.text.clone()));
                            },
                            Some(items) => {
                                let ghost its: Seq<Meta> = items@;
                                proof {
                                    assert(its.skip(0) =~= its);
                                }
                                let mut j: usize = 0;
                                while j < items.len()
                                    invariant
                                        all == attrs@,
                                        i < attrs.len(),
                                        its == items@,
                                        j <= items.len(),
                                        field_attr_fold(all.skip(i as int), None)
                                            == spec_field_attr(all),
                                        all.skip(i as int)[0] == all[i as int],
                                        all.skip(i as int).drop_first() == all.skip(i + 1 as int),
                                        all[i as int].meta == Meta::List(
                                            meta_path(all[i as int].meta),
                                            Some(*items),
                                        ),
                                        field_candidate(all[i as int]),
                                        demo_items_fold(its.skip(j as int), opt_attr_view(result))
                                            == demo_items_fold(its, None),
                                    decreases items.len() - j,
                                {
                                    proof {
                                        assert(its.skip(j as int)[0] == its[j as int]);
                                        assert(its.skip(j as int).drop_first() =~= its.skip(
                                            j + 1 as int,
                                        ));
                                    }
                                    match demo_item(&items[j]) {
                                        Ok(cfg) => {
                                            result = Some(cfg);
                                        },
                                        Err(e) => {
                                            proof {
                                                assert(demo_items_fold(its, None)
                                                    == Err::<Option<FieldAttrModel>, ErrorModel>(
                                                    e@,
                                                ));
                                                assert(field_attr_fold(all.skip(i as int), None)
                                                    == Err::<Option<FieldAttrModel>, ErrorModel>(
                                                    e@,
                                                ));
                                            }
                                            return Err(e);
                                        },
                                    }
                                    j = j + 1;
                                }
                                proof {
                                    assert(its.skip(items@.len() as int) =~= Seq::<Meta>::empty());
                                    assert(demo_items_fold(its, None) == Ok::<
                                        Option<FieldAttrModel>,
                                        ErrorModel,
                                    >(opt_attr_view(result)));
                                    assert(field_attr_fold(all.skip(i as int), None)
                                        == field_attr_fold(
                                        all.skip(i + 1 as int),
                                        opt_attr_view(result),
                                    ));
                                }
                            },
                        }
                    },
                    _ => {
                        if ident_path_is(meta_path_ref(&a.meta), "Demo") {
                            return Err(DemoError::UnrecognizedOption(a.text.clone()));
                        }
                    },
                }
            }
            i = i + 1;
        }
        proof {
            assert(all.skip(attrs@.len() as int) =~= Seq::<Attr>::empty());
        }
        Ok(result)
    }
}

/// Type-level options: the visibility of the generated constructor.
pub struct DemoOptions {
    pub visibility: String,
}

/// The visibility that one type-level wrapper entry sets, or the error it
/// raises; the single recognized entry is `visibility = "<string>"`.
pub open spec fn config_item(item: Meta) -> Result<Seq<char>, ErrorModel> {
    match item {
        Meta::NameValue(p, v) => if path_is(p, "visibility"@) {
            match v {
                MetaValue::Str(s) => if parses_as_visibility(s@) {
                    Ok(s@)
                } else {
                    Err(ErrorModel::EmbeddedExpressionSyntaxError(s@))
                },
                MetaValue::Other => Err(ErrorModel::UnrecognizedOption(path_text(p))),
            }
        } else {
            Err(ErrorModel::UnrecognizedOption(path_text(p)))
        },
        Meta::Path(p) => Err(ErrorModel::UnrecognizedOption(path_text(p))),
        Meta::List(p, _) => Err(ErrorModel::UnrecognizedOption(path_text(p))),
    }
}

pub open spec fn config_items_fold(items: Seq<Meta>, vis: Seq<char>) -> Result<
    Seq<char>,
    ErrorModel,
>
    decreases items.len(),
{
    if items.len() == 0 {
        Ok(vis)
    } else {
        match config_item(items[0]) {
            Ok(v) => config_items_fold(items.drop_first(), v),
            Err(e) => Err(e),
        }
    }
}

/// Whether an attribute is addressed to this generator when it stands on the
/// type: its path is the single wrapper name.
pub open spec fn type_candidate(a: Attr) -> bool {
    path_is(meta_path(a.meta), "Demo"@)
}

/// Folds the type's attribute list over the visibility option; a second
/// wrapper attribute is a fatal error, and a wrapper that is not an entry
/// list is an unrecognized construct.
pub open spec fn type_config_fold(attrs: Seq<Attr>, vis: Seq<char>, seen: bool) -> Result<
    Seq<char>,
    ErrorModel,
>
    decreases attrs.len(),
{
    if attrs.len() == 0 {
        Ok(vis)
    } else {
        let a = attrs[0];
        if !type_candidate(a) {
            type_config_fold(attrs.drop_first(), vis, seen)
        } else if seen {
            Err(ErrorModel::MultipleConfigAttributes)
        } else {
            match a.meta {
                Meta::List(_, Some(items)) => match config_items_fold(items@, vis) {
                    Ok(v2) => type_config_fold(attrs.drop_first(), v2, true),
                    Err(e) => Err(e),
                },
                _ => Err(ErrorModel::UnrecognizedOption(a.text@)),
            }
        }
    }
}

/// The generated constructor's visibility under the type's attribute list:
/// `pub` unless a wrapper attribute overrides it.
pub open spec fn spec_type_config(attrs: Seq<Attr>) -> Result<Seq<char>, ErrorModel> {
    type_config_fold(attrs, "pub"@, false)
}

/// Reads one entry of the type-level wrapper.
fn config_item_exec(item: &Meta) -> (r: Result<String, DemoError>)
    ensures
        match r {
            Ok(v) => config_item(*item) == Ok::<Seq<char>, ErrorModel>(v@),
            Err(e) => config_item(*item) == Err::<Seq<char>, ErrorModel>(e@),
        },
{
    match item {
        Meta::NameValue(p, v) => {
            if ident_path_is(p, "visibility") {
                match v {
                    MetaValue::Str(s) => {
                        if text_parses_as_visibility(s.as_str()) {
                            Ok(s.clone())
                        } else {
                            Err(DemoError::EmbeddedExpressionSyntaxError(s.clone()))
                        }
                    },
                    MetaValue::Other => Err(DemoError::UnrecognizedOption(path_to_string(p))),
                }
            } else {
                Err(DemoError::UnrecognizedOption(path_to_string(p)))
            }
        },
        Meta::Path(p) => Err(DemoError::UnrecognizedOption(path_to_string(p))),
        Meta::List(p, _) => Err(DemoError::UnrecognizedOption(path_to_string(p))),
    }
}

impl DemoOptions {
    /// Reads the type-level options from the type's attribute list, or fails
    /// with the first fatal error.
    pub fn from_attributes(attrs: &Vec<Attr>) -> (r: Result<DemoOptions, DemoError>)
        ensures
            match r {
                Ok(o) => spec_type_config(attrs@) == Ok::<Seq<char>, ErrorModel>(o.visibility@),
                Err(e) => spec_type_config(attrs@) == Err::<Seq<char>, ErrorModel>(e@),
            },
    {
        let ghost all: Seq<Attr> = attrs@;
        proof {
            assert(all.skip(0) =~= all);
        }
        let mut visibility = String::from_str("pub");
        let mut seen = false;
        let mut i: usize = 0;
        while i < attrs.len()
            invariant
                all == attrs@,
                i <= attrs.len(),
                type_config_fold(all.skip(i as int), visibility@, seen) == spec_type_config(all),
            decreases attrs.len() - i,
        {
            proof {
                assert(all.skip(i as int)[0] == all[i as int]);
                assert(all.skip(i as int).drop_first() =~= all.skip(i + 1 as int));
            }
            let ghost vis0: Seq<char> = visibility@;
            let a = &attrs[i];
            if ident_path_is(meta_path_ref(&a.meta), "Demo") {
                if seen {
                    return Err(DemoError::MultipleConfigAttributes);
                }
                match &a.meta {
                    Meta::List(_, Some(items)) => {
                        let ghost its: Seq<Meta> = items@;
                        proof {
                            assert(its.skip(0) =~= its);
                        }
                        let mut j: usize = 0;
                        while j < items.len()
                            invariant
                                all == attrs@,
                                i < attrs.len(),
                                its == items@,
                                j <= items.len(),
                                type_config_fold(all.skip(i as int), vis0, false)
                                    == spec_type_config(all),
                                all.skip(i as int)[0] == all[i as int],
                                all.skip(i as int).drop_first() == all.skip(i + 1 as int),
                                all[i as int].meta == Meta::List(
                                    meta_path(all[i as int].meta),
                                    Some(*items),
                                ),
                                type_candidate(all[i as int]),
                                config_items_fold(its.skip(j as int), visibility@)
                                    == config_items_fold(its, vis0),
                            decreases items.len() - j,
                        {
                            proof {
                                assert(its.skip(j as int)[0] == its[j as int]);
                                assert(its.skip(j as int).drop_first() =~= its.skip(j + 1 as int));
                            }
                            match config_item_exec(&items[j]) {
                                Ok(v) => {
                                    visibility = v;
                                },
                                Err(e) => {
                                    proof {
                                        assert(config_items_fold(its, vis0) == Err::<
                                            Seq<char>,
                                            ErrorModel,
                                        >(e@));
                                        assert(type_config_fold(all.skip(i as int), vis0, false)
                                            == Err::<Seq<char>, ErrorModel>(e@));
                                    }
                                    return Err(e);
                                },
                            }
                            j = j + 1;
                        }
                        proof {
                            assert(its.skip(items@.len() as int) =~= Seq::<Meta>::empty());
                            assert(config_items_fold(its, vis0) == Ok::<Seq<char>, ErrorModel>(
                                visibility@,
                            ));
                            assert(type_config_fold(all.skip(i as int), vis0, false)
                                == type_config_fold(all.skip(i + 1 as int), visibility@, true));
                        }
                        seen = true;
                    },
                    _ => {
                        return Err(DemoError::UnrecognizedOption(a.text.clone()));
                    },
                }
            }
            i = i + 1;
        }
        proof {
            assert(all.skip(attrs@.len() as int) =~= Seq::<Attr>::empty());
        }
        Ok(DemoOptions { visibility })
    }
}

} // verus!
