//! Read-accessor generator for named-field structure definitions.
//!
//! Given the definition of a record-like structure, the generator emits one
//! read-accessor declaration per field, skipping every field that carries the
//! recognized exclusion marker `NoRead`. Definitions that are not structures
//! with at least one named field — tuple and unit structures, structures
//! with zero fields, enumerations, unions — are rejected with a fatal error,
//! and no partial output is produced. Each invocation is a pure function
//! from the definition to the generated declarations.

use vstd::prelude::*;

pub mod generate;
pub mod laws;
pub mod model;

pub use generate::Accessor;
pub use generate::GenError;
pub use generate::classify;
pub use generate::emit_accessors;
pub use generate::field_is_excluded;
pub use generate::filter_eligible;
pub use generate::render_accessor;
pub use model::Definition;
pub use model::DefinitionBody;
pub use model::FieldDecl;
pub use model::FieldsKind;

use crate::generate::accessors_for;
use crate::generate::eligible_fields;
use crate::generate::generated_output;
use crate::generate::generated_texts;
use crate::generate::rendered;
use crate::model::DefinitionBodyModel;
use crate::model::DefinitionModel;
use crate::model::FieldsKindModel;

verus! {

/// The single recognized exclusion-marker name.
pub open spec fn exclusion_marker() -> Seq<char> {
    "NoRead"@
}

/// Generates the read accessors for one structure definition.
///
/// For a structure with at least one named field the result is one accessor
/// declaration per field that carries no exclusion marker, in declaration
/// order (an empty result when every field is marked); for any other
/// definition — a tuple or unit structure, a structure with zero fields, or
/// a definition that is no structure — the result is the corresponding
/// fatal error and no output.
pub fn derive_read_only(def: &Definition) -> (r: Result<Vec<String>, GenError>)
    ensures
        match generated_output(def.deep_view()) {
            Ok(texts) => r matches Ok(v) && v.deep_view() == texts,
            Err(e) => r matches Err(e2) && e2 == e,
        },
{
    let fields = match classify(def) {
        Ok(fields) => fields,
        Err(e) => {
            return Err(e);
        },
    };
    let ghost d: DefinitionModel = def.deep_view();
    let ghost declared = match d.body {
        DefinitionBodyModel::Structure(FieldsKindModel::Named(fs)) => fs,
        _ => Seq::empty(),
    };
    let eligible = filter_eligible(fields);
    let accessors = emit_accessors(&def.name, &def.generics, &eligible);
    let mut out: Vec<String> = Vec::new();
    let mut i: usize = 0;
    while i < accessors.len()
        invariant
            i <= accessors.len(),
            accessors.deep_view() == accessors_for(d.name, d.generics, eligible_fields(declared)),
            d.body == DefinitionBodyModel::Structure(FieldsKindModel::Named(declared)),
            declared.len() > 0,
            out.len() == i,
            forall|j: int| 0 <= j < i ==> out.deep_view()[j] == rendered(
                accessors.deep_view()[j],
            ),
        decreases accessors.len() - i,
    {
        let s = render_accessor(&accessors[i]);
        let ghost prev = out.deep_view();
        let ghost text = s@;
        out.push(s);
        proof {
            assert(out.deep_view() =~= prev.push(text));
        }
        i += 1;
    }
    assert(out.deep_view() =~= generated_texts(d));
    Ok(out)
}

} // verus!
