//! Field classification: combining a declared field with its parsed
//! configuration into a descriptor that fixes whether the field appears as a
//! constructor parameter, under what parameter type, and what initializer
//! fills it in the constructed value.
//!
//! A field of the placeholder-marker type never appears as a parameter and
//! is always initialized with the marker, whatever configuration it carries.

use vstd::prelude::*;
use crate::ast::{Field, FieldType, dup_field_type, ident_path_last_is};
use crate::attr::{FieldAttr, FieldAttrModel, opt_attr_view, spec_field_attr, spec_as_tokens};
use crate::error::{DemoError, ErrorModel};
use crate::strings::dec_str;
use crate::strings::usize_to_string;

verus! {

/// Whether a field type is the placeholder marker: a plain path whose last
/// segment is `PhantomData`.
pub open spec fn spec_is_phantom(t: FieldType) -> bool {
    match t@.path {
        Some(segs) => segs.len() >= 1 && segs[segs.len() - 1] == "PhantomData"@,
        None => false,
    }
}

/// A classified field: its type, parsed configuration, parameter name, and
/// whether it is addressed by name.
pub struct FieldExt {
    pub ty: FieldType,
    pub attr: Option<FieldAttr>,
    pub ident: String,
    pub named: bool,
}

/// The classification-relevant description of a field.
pub struct FieldDesc {
    pub ident: Seq<char>,
    pub ty_text: Seq<char>,
    pub phantom: bool,
    pub config: Option<FieldAttrModel>,
    pub named: bool,
}

impl View for FieldExt {
    type V = FieldDesc;

    open spec fn view(&self) -> FieldDesc {
        FieldDesc {
            ident: self.ident@,
            ty_text: self.ty@.text,
            phantom: spec_is_phantom(self.ty),
            config: opt_attr_view(self.attr),
            named: self.named,
        }
    }
}

/// The parameter name of field `idx`: its declared name in a named shape,
/// else the synthesized positional name.
pub open spec fn spec_field_ident(f: Field, idx: int, named: bool) -> Seq<char> {
    if named {
        f.ident->0@
    } else {
        "f"@ + dec_str(idx as nat)
    }
}

/// The description of declared field `f` at position `idx`; its
/// configuration is meaningful only where the field's attributes parse.
pub open spec fn field_desc(f: Field, idx: int, named: bool) -> FieldDesc {
    FieldDesc {
        ident: spec_field_ident(f, idx, named),
        ty_text: f.ty@.text,
        phantom: spec_is_phantom(f.ty),
        config: match spec_field_attr(f.attrs@) {
            Ok(c) => c,
            Err(_) => None,
        },
        named,
    }
}

/// Whether and with what text the field appears as a constructor parameter.
/// Placeholder markers and fields configured `default` or `value` take none.
pub open spec fn desc_arg(d: FieldDesc) -> Option<Seq<char>> {
    if d.phantom {
        None
    } else {
        match d.config {
            Some(FieldAttrModel::Default) => None,
            Some(FieldAttrModel::Into) => Some(
                d.ident + ": impl ::core::convert::Into<"@ + d.ty_text + ">"@,
            ),
            Some(FieldAttrModel::IntoIter(elem)) => Some(
                d.ident + ": impl ::core::iter::IntoIterator<Item = "@ + elem + ">"@,
            ),
            Some(FieldAttrModel::Value(_)) => None,
            None => Some(d.ident + ": "@ + d.ty_text),
        }
    }
}

/// The field's initializer in the construction expression.
pub open spec fn desc_init(d: FieldDesc) -> Seq<char> {
    let expr = if d.phantom {
        "::core::marker::PhantomData"@
    } else {
        match d.config {
            None => d.ident,
            Some(a) => spec_as_tokens(a, d.ident),
        }
    };
    if d.named {
        d.ident + ": "@ + expr
    } else {
        expr
    }
}

pub open spec fn opt_str_view(o: Option<String>) -> Option<Seq<char>> {
    match o {
        Some(s) => Some(s@),
        None => None,
    }
}

impl FieldExt {
    /// Classifies one declared field, parsing its configuration attribute.
    pub fn new(field: &Field, idx: usize, named: bool) -> (r: Result<FieldExt, DemoError>)
        requires
            named ==> field.ident is Some,
        ensures
            match r {
                Ok(fe) => spec_field_attr(field.attrs@) is Ok && fe@ == field_desc(
                    *field,
                    idx as int,
                    named,
                ),
                Err(e) => spec_field_attr(field.attrs@) == Err::<
                    Option<FieldAttrModel>,
                    ErrorModel,
                >(e@),
            },
    {
        let attr = match FieldAttr::parse(&field.attrs) {
            Ok(a) => a,
            Err(e) => {
                return Err(e);
            },
        };
        let ident = if named {
            match &field.ident {
                Some(s) => s.clone(),
                None => {
                    proof {
                        assert(false);
                    }
                    String::new()
                },
            }
        } else {
            String::from_str("f").concat(usize_to_string(idx).as_str())
        };
        let fe = FieldExt { ty: dup_field_type(&field.ty), attr, ident, named };
        proof {
            assert(fe@ == field_desc(*field, idx as int, named));
        }
        Ok(fe)
    }

    /// Whether the field's type is the placeholder marker.
    pub fn is_phantom_data(&self) -> (r: bool)
        ensures
            r == self@.phantom,
    {
        match &self.ty.path {
            Some(p) => ident_path_last_is(p, "PhantomData"),
            None => false,
        }
    }

    /// The parameter this field contributes, if any.
    pub fn as_arg(&self) -> (r: Option<String>)
        ensures
            opt_str_view(r) == desc_arg(self@),
    {
        if self.is_phantom_data() {
            return None;
        }
        match &self.attr {
            Some(FieldAttr::Default) => None,
            Some(FieldAttr::Into) => {
                let r = self.ident.clone().concat(": impl ::core::convert::Into<").concat(
                    self.ty.text.as_str(),
                ).concat(">");
                proof {
                    assert(r@ =~= desc_arg(self@)->0);
                }
                Some(r)
            },
            Some(FieldAttr::IntoIter(elem)) => {
                let r = self.ident.clone().concat(": impl ::core::iter::IntoIterator<Item = ")
                    .concat(elem.as_str()).concat(">");
                proof {
                    assert(r@ =~= desc_arg(self@)->0);
                }
                Some(r)
            },
            Some(FieldAttr::Value(_)) => None,
            None => {
                let r = self.ident.clone().concat(": ").concat(self.ty.text.as_str());
                proof {
                    assert(r@ =~= desc_arg(self@)->0);
                }
                Some(r)
            },
        }
    }

    /// The initializer this field contributes to the construction expression.
    pub fn as_init(&self) -> (r: String)
        ensures
            r@ == desc_init(self@),
    {
        let expr: String = if self.is_phantom_data() {
            String::from_str("::core::marker::PhantomData")
        } else {
            match &self.attr {
                None => self.ident.clone(),
                Some(a) => a.as_tokens(self.ident.as_str()),
            }
        };
        if self.named {
            let r = self.ident.clone().concat(": ").concat(expr.as_str());
            proof {
                assert(r@ =~= desc_init(self@));
            }
            r
        } else {
            expr
        }
    }
}

} // verus!
