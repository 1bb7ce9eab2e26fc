//! Constructor synthesis.
//!
//! One constructor definition is produced per constructible shape: the whole
//! struct, or one per enum variant.  The function is named `demo`, or
//! `demo_<snake_case_variant>` for a variant; its parameters are the
//! classified fields that take one, in declaration order; its body
//! constructs the type with the shape-appropriate syntax; the subject's
//! generics, where clause and lint directives are carried over verbatim, and
//! the visibility comes from the type-level options.

use vstd::prelude::*;
use crate::ast::{Field, FieldsShape, TypeDecl, TypeShape, VariantDecl, shape_fields, shape_named,
    wf_fields, wf_shape, wf_type_decl};
use crate::attr::{DemoOptions, spec_field_attr, spec_type_config};
use crate::case::{snake_case_of, to_snake_case};
use crate::classify::{FieldExt, field_desc, desc_arg, desc_init, opt_str_view};
use crate::error::{DemoError, ErrorModel};
use crate::lints::{collect_parent_lint_attrs, spec_lint_attr_texts};

verus! {

/// The structural shape of a constructible variant, which fixes the
/// construction syntax: no delimiters, a parenthesized positional list, or a
/// braced named list.
pub enum ShapeKind {
    Unit,
    Positional,
    Named,
}

/// The first fatal error among the fields' configuration attributes.
pub open spec fn spec_first_field_err(fields: Seq<Field>) -> Result<(), ErrorModel>
    decreases fields.len(),
{
    if fields.len() == 0 {
        Ok(())
    } else {
        match spec_field_attr(fields[0].attrs@) {
            Err(e) => Err(e),
            Ok(_) => spec_first_field_err(fields.drop_first()),
        }
    }
}

/// The parameter texts that `fields` add, whose first field stands at
/// declaration index `idx`; fields that take no parameter are skipped
/// without shifting the others.
pub open spec fn spec_params_from(fields: Seq<Field>, idx: int, named: bool) -> Seq<Seq<char>>
    decreases fields.len(),
{
    if fields.len() == 0 {
        Seq::empty()
    } else {
        (match desc_arg(field_desc(fields[0], idx, named)) {
            Some(a) => seq![a],
            None => Seq::<Seq<char>>::empty(),
        }) + spec_params_from(fields.drop_first(), idx + 1, named)
    }
}

/// The constructor's parameter texts, in declaration order.
pub open spec fn spec_params(fields: Seq<Field>, named: bool) -> Seq<Seq<char>> {
    spec_params_from(fields, 0, named)
}

/// The initializer texts of `fields`, whose first field stands at
/// declaration index `idx`.
pub open spec fn spec_inits_from(fields: Seq<Field>, idx: int, named: bool) -> Seq<Seq<char>>
    decreases fields.len(),
{
    if fields.len() == 0 {
        Seq::empty()
    } else {
        seq![desc_init(field_desc(fields[0], idx, named))] + spec_inits_from(
            fields.drop_first(),
            idx + 1,
            named,
        )
    }
}

/// The construction expression's initializer texts, one per field, in
/// declaration order.
pub open spec fn spec_inits(fields: Seq<Field>, named: bool) -> Seq<Seq<char>> {
    spec_inits_from(fields, 0, named)
}

/// The generated function's name: `demo`, or `demo_` plus the case-converted
/// variant name.
pub open spec fn spec_fn_name(variant: Option<Seq<char>>) -> Seq<char> {
    match variant {
        None => "demo"@,
        Some(v) => "demo_"@ + snake_case_of(v),
    }
}

/// The generated one-line doc string.
pub open spec fn spec_doc(ty_name: Seq<char>, variant: Option<Seq<char>>) -> Seq<char> {
    match variant {
        None => "Constructs a demo `"@ + ty_name + "`."@,
        Some(v) => "Constructs a demo `"@ + ty_name + "::"@ + v + "`."@,
    }
}

/// One generated constructor definition, still structured; `render` turns it
/// into source text.
pub struct GeneratedConstructor {
    pub ty_name: String,
    pub variant: Option<String>,
    pub doc: String,
    pub lint_attrs: Vec<String>,
    pub visibility: String,
    pub fn_name: String,
    pub params: Vec<String>,
    pub inits: Vec<String>,
    pub shape: ShapeKind,
    pub impl_generics: String,
    pub ty_generics: String,
    pub where_clause: String,
}

/// The shape kind generated for a unit / named / positional field list.
pub open spec fn impl_shape_kind(unit: bool, named: bool) -> ShapeKind {
    if unit {
        ShapeKind::Unit
    } else if named {
        ShapeKind::Named
    } else {
        ShapeKind::Positional
    }
}

/// What the constructor generated from `flds` for the given variant of
/// `decl` holds, with visibility `vis`.
pub open spec fn gen_matches(
    decl: TypeDecl,
    flds: Seq<Field>,
    named: bool,
    unit: bool,
    variant: Option<Seq<char>>,
    vis: Seq<char>,
    g: GeneratedConstructor,
) -> bool {
    &&& g.ty_name@ == decl.ident@
    &&& opt_str_view(g.variant) == variant
    &&& g.doc@ == spec_doc(decl.ident@, variant)
    &&& g.lint_attrs.deep_view() == spec_lint_attr_texts(decl.attrs@)
    &&& g.visibility@ == vis
    &&& g.fn_name@ == spec_fn_name(variant)
    &&& g.params.deep_view() == spec_params(flds, named)
    &&& g.inits.deep_view() == spec_inits(flds, named)
    &&& g.shape == impl_shape_kind(unit, named)
    &&& g.impl_generics@ == decl.impl_generics@
    &&& g.ty_generics@ == decl.ty_generics@
    &&& g.where_clause@ == decl.where_clause@
}

/// What the constructor generated for one whole field shape holds.
pub open spec fn constructor_matches(
    decl: TypeDecl,
    fs: FieldsShape,
    variant: Option<Seq<char>>,
    vis: Seq<char>,
    g: GeneratedConstructor,
) -> bool {
    gen_matches(decl, shape_fields(fs), shape_named(fs), fs is Unit, variant, vis, g)
}

pub open spec fn opt_ref_view(o: Option<&String>) -> Option<Seq<char>> {
    match o {
        Some(s) => Some(s@),
        None => None,
    }
}

proof fn lemma_params_from_snoc(s: Seq<Field>, f: Field, idx: int, named: bool)
    ensures
        spec_params_from(s.push(f), idx, named) == spec_params_from(s, idx, named) + (
        match desc_arg(field_desc(f, idx + s.len(), named)) {
            Some(a) => seq![a],
            None => Seq::<Seq<char>>::empty(),
        }),
    decreases s.len(),
{
    reveal_with_fuel(spec_params_from, 3);
    let piece = (match desc_arg(field_desc(f, idx + s.len(), named)) {
        Some(a) => seq![a],
        None => Seq::<Seq<char>>::empty(),
    });
    if s.len() == 0 {
        assert(s.push(f)[0] == f);
        assert(s.push(f).drop_first() =~= Seq::<Field>::empty());
        assert(spec_params_from(s.push(f), idx, named) =~= spec_params_from(s, idx, named)
            + piece);
    } else {
        lemma_params_from_snoc(s.drop_first(), f, idx + 1, named);
        assert(s.push(f)[0] == s[0]);
        assert(s.push(f).drop_first() =~= s.drop_first().push(f));
        assert(spec_params_from(s.push(f), idx, named) =~= spec_params_from(s, idx, named)
            + piece);
    }
}

proof fn lemma_inits_from_snoc(s: Seq<Field>, f: Field, idx: int, named: bool)
    ensures
        spec_inits_from(s.push(f), idx, named) == spec_inits_from(s, idx, named) + seq![
            desc_init(field_desc(f, idx + s.len(), named)),
        ],
    decreases s.len(),
{
    reveal_with_fuel(spec_inits_from, 3);
    if s.len() == 0 {
        assert(s.push(f)[0] == f);
        assert(s.push(f).drop_first() =~= Seq::<Field>::empty());
        assert(spec_inits_from(s.push(f), idx, named) =~= spec_inits_from(s, idx, named) + seq![
            desc_init(field_desc(f, idx + s.len(), named)),
        ]);
    } else {
        lemma_inits_from_snoc(s.drop_first(), f, idx + 1, named);
        assert(s.push(f)[0] == s[0]);
        assert(s.push(f).drop_first() =~= s.drop_first().push(f));
        assert(spec_inits_from(s.push(f), idx, named) =~= spec_inits_from(s, idx, named) + seq![
            desc_init(field_desc(f, idx + s.len(), named)),
        ]);
    }
}

/// Synthesizes the constructor for one variant, given its field list (absent
/// for a unit shape) and whether the fields are named.
#[verifier::loop_isolation(false)]
pub fn demo_impl(
    decl: &TypeDecl,
    fields: Option<&Vec<Field>>,
    named: bool,
    variant: Option<&String>,
    options: &DemoOptions,
) -> (r: Result<GeneratedConstructor, DemoError>)
    requires
        match fields {
            Some(v) => wf_fields(v@, named),
            None => true,
        },
    ensures
        ({
            let flds = match fields {
                Some(v) => v@,
                None => Seq::<Field>::empty(),
            };
            match r {
                Ok(g) => spec_first_field_err(flds) is Ok && gen_matches(
                    *decl,
                    flds,
                    named,
                    fields is None,
                    opt_ref_view(variant),
                    options.visibility@,
                    g,
                ),
                Err(e) => spec_first_field_err(flds) == Err::<(), ErrorModel>(e@),
            }
        }),
{
    let ghost flds: Seq<Field> = match fields {
        Some(v) => v@,
        None => Seq::<Field>::empty(),
    };
    let mut params: Vec<String> = Vec::new();
    let mut inits: Vec<String> = Vec::new();
    match fields {
        None => {
            proof {
                assert(params.deep_view() =~= spec_params(flds, named));
                assert(inits.deep_view() =~= spec_inits(flds, named));
            }
        },
        Some(v) => {
            proof {
                assert(flds.skip(0) =~= flds);
                assert(flds.take(0) =~= Seq::<Field>::empty());
                assert(params.deep_view() =~= spec_params(flds.take(0), named));
                assert(inits.deep_view() =~= spec_inits(flds.take(0), named));
            }
            let mut i: usize = 0;
            while i < v.len()
                invariant
                    flds == v@,
                    i <= v.len(),
                    wf_fields(flds, named),
                    spec_first_field_err(flds.skip(i as int)) == spec_first_field_err(flds),
                    params.deep_view() == spec_params(flds.take(i as int), named),
                    inits.deep_view() == spec_inits(flds.take(i as int), named),
                decreases v.len() - i,
            {
                proof {
                    assert(flds.skip(i as int)[0] == flds[i as int]);
                    assert(flds.skip(i as int).drop_first() =~= flds.skip(i + 1 as int));
                }
                let fe = match FieldExt::new(&v[i], i, named) {
                    Ok(fe) => fe,
                    Err(e) => {
                        proof {
                            assert(spec_first_field_err(flds.skip(i as int)) == Err::<
                                (),
                                ErrorModel,
                            >(e@));
                            assert(spec_first_field_err(flds) == Err::<(), ErrorModel>(e@));
                        }
                        return Err(e);
                    },
                };
                let ghost params0: Seq<Seq<char>> = params.deep_view();
                let ghost inits0: Seq<Seq<char>> = inits.deep_view();
                match fe.as_arg() {
                    Some(s) => {
                        params.push(s);
                        proof {
                            assert(params.deep_view() =~= params0 + seq![
                                desc_arg(field_desc(flds[i as int], i as int, named))->0,
                            ]);
                        }
                    },
                    None => {},
                }
                inits.push(fe.as_init());
                proof {
                    assert(inits.deep_view() =~= inits0 + seq![
                        desc_init(field_desc(flds[i as int], i as int, named)),
                    ]);
                    assert(flds.take(i + 1 as int) =~= flds.take(i as int).push(flds[i as int]));
                    lemma_params_from_snoc(flds.take(i as int), flds[i as int], 0, named);
                    lemma_inits_from_snoc(flds.take(i as int), flds[i as int], 0, named);
                    if desc_arg(field_desc(flds[i as int], i as int, named)) is None {
                        assert(params.deep_view() =~= params0 + Seq::<Seq<char>>::empty());
                    }
                }
                i = i + 1;
            }
            proof {
                assert(flds.take(v@.len() as int) =~= flds);
                assert(flds.skip(v@.len() as int) =~= Seq::<Field>::empty());
            }
        },
    }
    let fn_name = match variant {
        None => String::from_str("demo"),
        Some(v) => String::from_str("demo_").concat(to_snake_case(v.as_str()).as_str()),
    };
    let doc = match variant {
        None => {
            let d = String::from_str("Constructs a demo `").concat(decl.ident.as_str()).concat(
                "`.",
            );
            proof {
                assert(d@ =~= spec_doc(decl.ident@, opt_ref_view(variant)));
            }
            d
        },
        Some(v) => {
            let d = String::from_str("Constructs a demo `").concat(decl.ident.as_str()).concat(
                "::",
            ).concat(v.as_str()).concat("`.");
            proof {
                assert(d@ =~= spec_doc(decl.ident@, opt_ref_view(variant)));
            }
            d
        },
    };
    let lint_attrs = collect_parent_lint_attrs(&decl.attrs);
    let unit = fields.is_none();
    let shape = if unit {
        ShapeKind::Unit
    } else if named {
        ShapeKind::Named
    } else {
        ShapeKind::Positional
    };
    let g = GeneratedConstructor {
        ty_name: decl.ident.clone(),
        variant: match variant {
            Some(v) => Some(v.clone()),
            None => None,
        },
        doc,
        lint_attrs,
        visibility: options.visibility.clone(),
        fn_name,
        params,
        inits,
        shape,
        impl_generics: decl.impl_generics.clone(),
        ty_generics: decl.ty_generics.clone(),
        where_clause: decl.where_clause.clone(),
    };
    Ok(g)
}

/// Synthesizes the constructor for one variant from its field shape.
pub fn demo_for_struct(
    decl: &TypeDecl,
    fields: &FieldsShape,
    variant: Option<&String>,
    options: &DemoOptions,
) -> (r: Result<GeneratedConstructor, DemoError>)
    requires
        wf_shape(*fields),
    ensures
        match r {
            Ok(g) => spec_first_field_err(shape_fields(*fields)) is Ok && constructor_matches(
                *decl,
                *fields,
                opt_ref_view(variant),
                options.visibility@,
                g,
            ),
            Err(e) => spec_first_field_err(shape_fields(*fields)) == Err::<(), ErrorModel>(e@),
        },
{
    match fields {
        FieldsShape::Named(v) => demo_impl(decl, Some(v), true, variant, options),
        FieldsShape::Unit => demo_impl(decl, None, false, variant, options),
        FieldsShape::Unnamed(v) => demo_impl(decl, Some(v), false, variant, options),
    }
}

/// The first fatal error among an enum's variants: an explicit discriminant,
/// or a field error, in declaration order.
pub open spec fn spec_variants_err(vs: Seq<VariantDecl>) -> Result<(), ErrorModel>
    decreases vs.len(),
{
    if vs.len() == 0 {
        Ok(())
    } else {
        let v = vs[0];
        if v.has_discriminant {
            Err(ErrorModel::DiscriminantUnsupported)
        } else {
            match spec_first_field_err(shape_fields(v.fields)) {
                Err(e) => Err(e),
                Ok(_) => spec_variants_err(vs.drop_first()),
            }
        }
    }
}

/// Synthesizes one constructor per enum variant; an enum with no variants is
/// a fatal error.
pub fn demo_for_enum(decl: &TypeDecl, variants: &Vec<VariantDecl>, options: &DemoOptions) -> (r:
    Result<Vec<GeneratedConstructor>, DemoError>)
    requires
        forall|i: int| 0 <= i < variants@.len() ==> wf_shape((#[trigger] variants@[i]).fields),
    ensures
        match r {
            Ok(gs) => variants@.len() > 0 && spec_variants_err(variants@) is Ok && gs@.len()
                == variants@.len() && (forall|k: int|
                0 <= k < variants@.len() ==> constructor_matches(
                    *decl,
                    (#[trigger] variants@[k]).fields,
                    Some(variants@[k].ident@),
                    options.visibility@,
                    gs@[k],
                )),
            Err(e) => if variants@.len() == 0 {
                e@ == ErrorModel::EmptyEnum
            } else {
                spec_variants_err(variants@) == Err::<(), ErrorModel>(e@)
            },
        },
{
    if variants.len() == 0 {
        return Err(DemoError::EmptyEnum);
    }
    let ghost all: Seq<VariantDecl> = variants@;
    proof {
        assert(all.skip(0) =~= all);
    }
    let mut gs: Vec<GeneratedConstructor> = Vec::new();
    let mut i: usize = 0;
    while i < variants.len()
        invariant
            all == variants@,
            i <= variants.len(),
            spec_variants_err(all.skip(i as int)) == spec_variants_err(all),
            gs@.len() == i,
            forall|k: int|
                0 <= k < i ==> constructor_matches(
                    *decl,
                    (#[trigger] all[k]).fields,
                    Some(all[k].ident@),
                    options.visibility@,
                    gs@[k],
                ),
            forall|k: int| 0 <= k < all.len() ==> wf_shape((#[trigger] all[k]).fields),
        decreases variants.len() - i,
    {
        proof {
            assert(all.skip(i as int)[0] == all[i as int]);
            assert(all.skip(i as int).drop_first() =~= all.skip(i + 1 as int));
        }
        let v = &variants[i];
        if v.has_discriminant {
            return Err(DemoError::DiscriminantUnsupported);
        }
        match demo_for_struct(decl, &v.fields, Some(&v.ident), options) {
            Ok(g) => {
                gs.push(g);
            },
            Err(e) => {
                return Err(e);
            },
        }
        i = i + 1;
    }
    proof {
        assert(all.skip(variants@.len() as int) =~= Seq::<VariantDecl>::empty());
    }
    Ok(gs)
}

/// The first fatal error of the whole generation: type-level options first,
/// then the shape, then the variants and fields in order.
pub open spec fn spec_gen_err(decl: TypeDecl) -> Result<(), ErrorModel> {
    match spec_type_config(decl.attrs@) {
        Err(e) => Err(e),
        Ok(_) => match decl.shape {
            TypeShape::Union => Err(ErrorModel::UnsupportedShape),
            TypeShape::Struct(fs) => spec_first_field_err(shape_fields(fs)),
            TypeShape::Enum(vs) => if vs@.len() == 0 {
                Err(ErrorModel::EmptyEnum)
            } else {
                spec_variants_err(vs@)
            },
        },
    }
}

/// The configured visibility of `attrs`, where the options parse.
pub open spec fn cfg_vis(decl: TypeDecl) -> Seq<char> {
    spec_type_config(decl.attrs@)->Ok_0
}

/// Generates the constructors for a parsed type declaration: one for a
/// struct, one per variant for an enum; the first fatal error aborts the
/// whole generation with no output.
pub fn derive(decl: &TypeDecl) -> (r: Result<Vec<GeneratedConstructor>, DemoError>)
    requires
        wf_type_decl(*decl),
    ensures
        match r {
            Ok(gs) => spec_gen_err(*decl) is Ok && match decl.shape {
                TypeShape::Struct(fs) => gs@.len() == 1 && constructor_matches(
                    *decl,
                    fs,
                    None,
                    cfg_vis(*decl),
                    gs@[0],
                ),
                TypeShape::Enum(vs) => gs@.len() == vs@.len() && (forall|k: int|
                    0 <= k < vs@.len() ==> constructor_matches(
                        *decl,
                        (#[trigger] vs@[k]).fields,
                        Some(vs@[k].ident@),
                        cfg_vis(*decl),
                        gs@[k],
                    )),
                TypeShape::Union => false,
            },
            Err(e) => spec_gen_err(*decl) == Err::<(), ErrorModel>(e@),
        },
{
    let options = match DemoOptions::from_attributes(&decl.attrs) {
        Ok(o) => o,
        Err(e) => {
            return Err(e);
        },
    };
    match &decl.shape {
        TypeShape::Enum(vs) => demo_for_enum(decl, vs, &options),
        TypeShape::Struct(fs) => match demo_for_struct(decl, fs, None, &options) {
            Ok(g) => {
                let mut gs: Vec<GeneratedConstructor> = Vec::new();
                gs.push(g);
                Ok(gs)
            },
            Err(e) => Err(e),
        },
        TypeShape::Union => Err(DemoError::UnsupportedShape),
    }
}

} // verus!
