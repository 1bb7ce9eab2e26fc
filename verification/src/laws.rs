//! General properties of the synthesizer, stated over the same spec
//! functions that the executable functions' contracts use.

use vstd::prelude::*;
use crate::ast::Field;
use crate::attr::{FieldAttrModel, spec_field_attr};
use crate::classify::{desc_arg, desc_init, field_desc, spec_field_ident, spec_is_phantom};
use crate::error::ErrorModel;
use crate::synth::{spec_params, spec_params_from, spec_inits, spec_inits_from};

verus! {

/// The parameter text of a field that carries no configuration: its name
/// and its exact declared type.
pub open spec fn plain_param_text(f: Field, idx: int, named: bool) -> Seq<char> {
    spec_field_ident(f, idx, named) + ": "@ + f.ty@.text
}

/// The initializer that fills a field with `expr`, named or positional.
pub open spec fn init_text(f: Field, idx: int, named: bool, expr: Seq<char>) -> Seq<char> {
    if named {
        spec_field_ident(f, idx, named) + ": "@ + expr
    } else {
        expr
    }
}

/// A field with no configuration attribute and not of placeholder-marker
/// type.
pub open spec fn plain_field(f: Field) -> bool {
    &&& spec_field_attr(f.attrs@) == Ok::<Option<FieldAttrModel>, ErrorModel>(None)
    &&& !spec_is_phantom(f.ty)
}

proof fn lemma_inits_from_index(fields: Seq<Field>, idx: int, named: bool)
    ensures
        spec_inits_from(fields, idx, named).len() == fields.len(),
        forall|i: int|
            0 <= i < fields.len() ==> spec_inits_from(fields, idx, named)[i] == desc_init(
                field_desc(#[trigger] fields[i], idx + i, named),
            ),
    decreases fields.len(),
{
    if fields.len() > 0 {
        lemma_inits_from_index(fields.drop_first(), idx + 1, named);
        assert forall|i: int| 0 <= i < fields.len() implies spec_inits_from(fields, idx, named)[i]
            == desc_init(field_desc(#[trigger] fields[i], idx + i, named)) by {
            if i > 0 {
                assert(fields.drop_first()[i - 1] == fields[i]);
            }
        }
    }
}

proof fn lemma_params_from_all(fields: Seq<Field>, idx: int, named: bool)
    requires
        forall|i: int|
            0 <= i < fields.len() ==> desc_arg(field_desc(#[trigger] fields[i], idx + i, named))
                is Some,
    ensures
        spec_params_from(fields, idx, named).len() == fields.len(),
        forall|i: int|
            0 <= i < fields.len() ==> spec_params_from(fields, idx, named)[i] == desc_arg(
                field_desc(#[trigger] fields[i], idx + i, named),
            )->0,
    decreases fields.len(),
{
    if fields.len() > 0 {
        assert(desc_arg(field_desc(fields[0], idx, named)) is Some);
        lemma_params_from_all(fields.drop_first(), idx + 1, named);
        assert forall|i: int| 0 <= i < fields.len() implies spec_params_from(fields, idx, named)[i]
            == desc_arg(field_desc(#[trigger] fields[i], idx + i, named))->0 by {
            if i > 0 {
                assert(fields.drop_first()[i - 1] == fields[i]);
            }
        }
    }
}

proof fn lemma_params_from_skip_one(fields: Seq<Field>, idx: int, named: bool, k: int)
    requires
        0 <= k < fields.len(),
        forall|i: int|
            0 <= i < fields.len() && i != k ==> desc_arg(
                field_desc(#[trigger] fields[i], idx + i, named),
            ) is Some,
        desc_arg(field_desc(fields[k], idx + k, named)) is None,
    ensures
        spec_params_from(fields, idx, named).len() == fields.len() - 1,
        forall|i: int|
            0 <= i < k ==> spec_params_from(fields, idx, named)[i] == desc_arg(
                field_desc(#[trigger] fields[i], idx + i, named),
            )->0,
        forall|i: int|
            k <= i < fields.len() - 1 ==> spec_params_from(fields, idx, named)[i] == desc_arg(
                field_desc(#[trigger] fields[i + 1], idx + i + 1, named),
            )->0,
    decreases fields.len(),
{
    if k == 0 {
        assert forall|i: int| 0 <= i < fields.drop_first().len() implies desc_arg(
            field_desc(#[trigger] fields.drop_first()[i], idx + 1 + i, named),
        ) is Some by {
            assert(fields.drop_first()[i] == fields[i + 1]);
        }
        lemma_params_from_all(fields.drop_first(), idx + 1, named);
        assert forall|i: int| 0 <= i < fields.len() - 1 implies spec_params_from(
            fields,
            idx,
            named,
        )[i] == desc_arg(field_desc(#[trigger] fields[i + 1], idx + i + 1, named))->0 by {
            assert(fields.drop_first()[i] == fields[i + 1]);
        }
    } else {
        assert forall|i: int|
            0 <= i < fields.drop_first().len() && i != k - 1 implies desc_arg(
            field_desc(#[trigger] fields.drop_first()[i], idx + 1 + i, named),
        ) is Some by {
            assert(fields.drop_first()[i] == fields[i + 1]);
        }
        assert(fields.drop_first()[k - 1] == fields[k]);
        lemma_params_from_skip_one(fields.drop_first(), idx + 1, named, k - 1);
        assert(desc_arg(field_desc(fields[0], idx, named)) is Some);
        assert forall|i: int| 0 <= i < k implies spec_params_from(fields, idx, named)[i]
            == desc_arg(field_desc(#[trigger] fields[i], idx + i, named))->0 by {
            if i > 0 {
                assert(fields.drop_first()[i - 1] == fields[i]);
            }
        }
        assert forall|i: int| k <= i < fields.len() - 1 implies spec_params_from(
            fields,
            idx,
            named,
        )[i] == desc_arg(field_desc(#[trigger] fields[i + 1], idx + i + 1, named))->0 by {
            assert(fields.drop_first()[i - 1 + 1] == fields[i + 1]);
        }
    }
}

/// For a product shape whose fields carry no configuration attributes, the
/// generated constructor takes exactly one parameter per field, of the
/// field's exact declared type, in declaration order, and every field is
/// initialized directly from its own parameter — so constructing and then
/// destructuring gives back exactly the values supplied.
pub proof fn lemma_plain_constructor_round_trip(fields: Seq<Field>, named: bool)
    requires
        forall|i: int| 0 <= i < fields.len() ==> plain_field(#[trigger] fields[i]),
    ensures
        spec_params(fields, named).len() == fields.len(),
        forall|i: int|
            0 <= i < fields.len() ==> spec_params(fields, named)[i] == plain_param_text(
                #[trigger] fields[i],
                i,
                named,
            ),
        spec_inits(fields, named).len() == fields.len(),
        forall|i: int|
            0 <= i < fields.len() ==> spec_inits(fields, named)[i] == init_text(
                #[trigger] fields[i],
                i,
                named,
                spec_field_ident(fields[i], i, named),
            ),
{
    assert forall|i: int| 0 <= i < fields.len() implies desc_arg(
        field_desc(#[trigger] fields[i], i, named),
    ) is Some by {
        assert(plain_field(fields[i]));
    }
    lemma_params_from_all(fields, 0, named);
    lemma_inits_from_index(fields, 0, named);
}

/// For a field marked `default` the generated constructor has one parameter
/// fewer: the marked field contributes none, the other fields keep their
/// relative order, and the marked field is initialized with the type's
/// default value.
pub proof fn lemma_default_field(fields: Seq<Field>, named: bool, k: int)
    requires
        0 <= k < fields.len(),
        spec_field_attr(fields[k].attrs@) == Ok::<Option<FieldAttrModel>, ErrorModel>(
            Some(FieldAttrModel::Default),
        ),
        !spec_is_phantom(fields[k].ty),
        forall|i: int| 0 <= i < fields.len() && i != k ==> plain_field(#[trigger] fields[i]),
    ensures
        spec_params(fields, named).len() == fields.len() - 1,
        forall|i: int|
            0 <= i < k ==> spec_params(fields, named)[i] == plain_param_text(
                #[trigger] fields[i],
                i,
                named,
            ),
        forall|i: int|
            k <= i < fields.len() - 1 ==> spec_params(fields, named)[i] == plain_param_text(
                #[trigger] fields[i + 1],
                i + 1,
                named,
            ),
        spec_inits(fields, named).len() == fields.len(),
        spec_inits(fields, named)[k] == init_text(
            fields[k],
            k,
            named,
            "::core::default::Default::default()"@,
        ),
{
    assert forall|i: int| 0 <= i < fields.len() && i != k implies desc_arg(
        field_desc(#[trigger] fields[i], i, named),
    ) is Some by {
        assert(plain_field(fields[i]));
    }
    assert(desc_arg(field_desc(fields[k], k, named)) is None);
    lemma_params_from_skip_one(fields, 0, named, k);
    lemma_inits_from_index(fields, 0, named);
}

/// For a field marked `value = "<expr>"` the constructor takes no parameter
/// for that field and initializes it with exactly the spliced expression,
/// independent of the other parameters' values; the other fields keep their
/// relative order.
pub proof fn lemma_value_field(fields: Seq<Field>, named: bool, k: int, expr: Seq<char>)
    requires
        0 <= k < fields.len(),
        spec_field_attr(fields[k].attrs@) == Ok::<Option<FieldAttrModel>, ErrorModel>(
            Some(FieldAttrModel::Value(expr)),
        ),
        !spec_is_phantom(fields[k].ty),
        forall|i: int| 0 <= i < fields.len() && i != k ==> plain_field(#[trigger] fields[i]),
    ensures
        spec_params(fields, named).len() == fields.len() - 1,
        forall|i: int|
            0 <= i < k ==> spec_params(fields, named)[i] == plain_param_text(
                #[trigger] fields[i],
                i,
                named,
            ),
        forall|i: int|
            k <= i < fields.len() - 1 ==> spec_params(fields, named)[i] == plain_param_text(
                #[trigger] fields[i + 1],
                i + 1,
                named,
            ),
        spec_inits(fields, named).len() == fields.len(),
        spec_inits(fields, named)[k] == init_text(fields[k], k, named, expr),
{
    assert forall|i: int| 0 <= i < fields.len() && i != k implies desc_arg(
        field_desc(#[trigger] fields[i], i, named),
    ) is Some by {
        assert(plain_field(fields[i]));
    }
    assert(desc_arg(field_desc(fields[k], k, named)) is None);
    lemma_params_from_skip_one(fields, 0, named, k);
    lemma_inits_from_index(fields, 0, named);
}

/// A field of placeholder-marker type never contributes a constructor
/// parameter and is always initialized with the marker, regardless of any
/// configuration attribute present on it.
pub proof fn lemma_phantom_field(fields: Seq<Field>, named: bool, k: int)
    requires
        0 <= k < fields.len(),
        spec_is_phantom(fields[k].ty),
    ensures
        desc_arg(field_desc(fields[k], k, named)) is None,
        spec_inits(fields, named).len() == fields.len(),
        spec_inits(fields, named)[k] == init_text(
            fields[k],
            k,
            named,
            "::core::marker::PhantomData"@,
        ),
{
    lemma_inits_from_index(fields, 0, named);
}

} // verus!
