//! Laws of the generator, stated over the specification and proved for all
//! inputs.

use vstd::prelude::*;

use crate::generate::GenError;
use crate::generate::accessor_model;
use crate::generate::accessors_for;
use crate::generate::eligible_fields;
use crate::generate::eligible_pred;
use crate::generate::generated_output;
use crate::generate::is_excluded;
use crate::generate::rendered;
use crate::model::DefinitionBodyModel;
use crate::model::DefinitionModel;
use crate::model::FieldDeclModel;
use crate::model::FieldsKindModel;

verus! {

broadcast use vstd::seq_lib::group_filter_ensures;

/// For every named-field structure, generation succeeds and produces exactly
/// one accessor per field without the exclusion marker and none for a marked
/// field: the output has one entry per eligible field, every eligible field
/// is unmarked, every unmarked declared field is among the eligible ones, no
/// excluded field is, and the entry at each position is the rendered accessor
/// of the eligible field at that position.
pub proof fn lemma_one_accessor_per_eligible_field(
    d: DefinitionModel,
    fields: Seq<FieldDeclModel>,
)
    requires
        d.body == DefinitionBodyModel::Structure(FieldsKindModel::Named(fields)),
        fields.len() > 0,
    ensures
        generated_output(d) matches Ok(texts) && texts.len() == eligible_fields(fields).len(),
        eligible_fields(fields).len() <= fields.len(),
        forall|i: int|
            0 <= i < eligible_fields(fields).len() ==> !is_excluded(
                #[trigger] eligible_fields(fields)[i],
            ),
        forall|i: int|
            0 <= i < fields.len() && !is_excluded(#[trigger] fields[i]) ==> eligible_fields(
                fields,
            ).contains(fields[i]),
        forall|f: FieldDeclModel| is_excluded(f) ==> !eligible_fields(fields).contains(f),
        forall|i: int|
            0 <= i < eligible_fields(fields).len() ==> generated_output(d)->Ok_0[i] == rendered(
                accessor_model(d.name, d.generics, #[trigger] eligible_fields(fields)[i]),
            ),
{
    let eligible = eligible_fields(fields);
    assert forall|f: FieldDeclModel| is_excluded(f) implies !eligible.contains(f) by {
        if eligible.contains(f) {
            let j = choose|j: int| 0 <= j < eligible.len() && eligible[j] == f;
            assert(eligible_pred()(eligible[j]));
        }
    }
}

/// Idempotence: each invocation is deterministic, so re-running the generator
/// on an unchanged definition yields identical output — any two results that
/// the generator's contract admits for the same definition are equal, in the
/// success case declaration for declaration.
pub proof fn lemma_generation_deterministic(
    d: DefinitionModel,
    r1: Result<Seq<Seq<char>>, GenError>,
    r2: Result<Seq<Seq<char>>, GenError>,
)
    requires
        r1 == generated_output(d),
        r2 == generated_output(d),
    ensures
        r1 == r2,
{
}

/// Order preservation: splitting the declared field list anywhere splits the
/// eligible fields and the emitted accessors at the matching point. The
/// accessors for the earlier fields come first, those for the later fields
/// follow, and excluded fields are omitted without any reordering.
pub proof fn lemma_order_preserved(
    name: Seq<char>,
    generics: Seq<char>,
    fs1: Seq<FieldDeclModel>,
    fs2: Seq<FieldDeclModel>,
)
    ensures
        eligible_fields(fs1 + fs2) == eligible_fields(fs1) + eligible_fields(fs2),
        accessors_for(name, generics, eligible_fields(fs1 + fs2)) == accessors_for(
            name,
            generics,
            eligible_fields(fs1),
        ) + accessors_for(name, generics, eligible_fields(fs2)),
{
    Seq::filter_distributes_over_add(fs1, fs2, eligible_pred());
    assert(accessors_for(name, generics, eligible_fields(fs1) + eligible_fields(fs2))
        =~= accessors_for(name, generics, eligible_fields(fs1)) + accessors_for(
        name,
        generics,
        eligible_fields(fs2),
    ));
}

/// Generic pass-through: every accessor emitted for a structure is scoped
/// under that structure's name and its generic-parameter list, unmodified,
/// and the generated text at each position is exactly that accessor's
/// rendering.
pub proof fn lemma_generics_passed_through(d: DefinitionModel, fields: Seq<FieldDeclModel>)
    requires
        d.body == DefinitionBodyModel::Structure(FieldsKindModel::Named(fields)),
        fields.len() > 0,
    ensures
        forall|i: int|
            0 <= i < accessors_for(d.name, d.generics, eligible_fields(fields)).len() ==> (
            #[trigger] accessors_for(d.name, d.generics, eligible_fields(fields))[i]).generics
                == d.generics,
        forall|i: int|
            0 <= i < accessors_for(d.name, d.generics, eligible_fields(fields)).len() ==> (
            #[trigger] accessors_for(d.name, d.generics, eligible_fields(fields))[i]).struct_name
                == d.name,
        generated_output(d) matches Ok(texts) && texts.len() == accessors_for(
            d.name,
            d.generics,
            eligible_fields(fields),
        ).len(),
        forall|i: int|
            0 <= i < accessors_for(d.name, d.generics, eligible_fields(fields)).len()
                ==> generated_output(d)->Ok_0[i] == rendered(
                #[trigger] accessors_for(d.name, d.generics, eligible_fields(fields))[i],
            ),
{
}

/// Rejection: a structure with unnamed (positional) fields or with zero
/// fields aborts generation with `UnsupportedShape`; a definition that is
/// not a structure aborts with `UnsupportedDefinitionKind`; generation
/// succeeds exactly on a structure with at least one named field, and a
/// failure carries no output.
pub proof fn lemma_rejection(d: DefinitionModel)
    ensures
        (d.body matches DefinitionBodyModel::Structure(k) && !(k matches FieldsKindModel::Named(
            _,
        ))) ==> generated_output(d) == Err::<Seq<Seq<char>>, GenError>(GenError::UnsupportedShape),
        (d.body matches DefinitionBodyModel::Structure(FieldsKindModel::Named(fs)) && fs.len()
            == 0) ==> generated_output(d) == Err::<Seq<Seq<char>>, GenError>(
            GenError::UnsupportedShape,
        ),
        !(d.body matches DefinitionBodyModel::Structure(_)) ==> generated_output(d) == Err::<
            Seq<Seq<char>>,
            GenError,
        >(GenError::UnsupportedDefinitionKind),
        (generated_output(d) matches Ok(_)) <==> (d.body
            matches DefinitionBodyModel::Structure(FieldsKindModel::Named(fs)) && fs.len() > 0),
{
}

} // verus!
