//! The three-stage pipeline: classify the definition, filter the eligible
//! fields, and emit one read-accessor declaration per eligible field.

use vstd::prelude::*;
use vstd::string::StringExecFns;

use crate::exclusion_marker;
use crate::model::Definition;
use crate::model::DefinitionBody;
use crate::model::DefinitionBodyModel;
use crate::model::FieldDecl;
use crate::model::FieldDeclModel;
use crate::model::FieldsKind;
use crate::model::FieldsKindModel;

verus! {

broadcast use vstd::seq_lib::group_filter_ensures;

/// The two fatal classification failures. Both abort generation entirely:
/// no partial output is ever produced.
#[derive(Clone, Copy, Debug, PartialEq, Eq, Structural)]
pub enum GenError {
    /// The definition is a structure, but a unit or tuple structure.
    UnsupportedShape,
    /// The definition is not a structure at all.
    UnsupportedDefinitionKind,
}

impl GenError {
    /// The fixed reason string reported to the invoking build process.
    pub fn message(&self) -> (r: String)
        ensures
            *self == GenError::UnsupportedShape ==> r@ == (
            "unsupported structure shape: unit/tuple structures are not supported")@,
            *self == GenError::UnsupportedDefinitionKind ==> r@ == (
            "unsupported definition kind: only structures are supported")@,
    {
        match self {
            GenError::UnsupportedShape => (
            "unsupported structure shape: unit/tuple structures are not supported").to_owned(),
            GenError::UnsupportedDefinitionKind => (
            "unsupported definition kind: only structures are supported").to_owned(),
        }
    }
}

/// A field is excluded iff at least one of its markers matches the recognized
/// exclusion-marker name exactly.
pub open spec fn is_excluded(f: FieldDeclModel) -> bool {
    exists|i: int| 0 <= i < f.markers.len() && f.markers[i] == exclusion_marker()
}

/// Eligibility as a predicate value, shared by the specification and the
/// proofs about it.
pub open spec fn eligible_pred() -> spec_fn(FieldDeclModel) -> bool {
    |f: FieldDeclModel| !is_excluded(f)
}

/// The ordered subsequence of fields whose exclusion marker is absent.
pub open spec fn eligible_fields(fields: Seq<FieldDeclModel>) -> Seq<FieldDeclModel> {
    fields.filter(eligible_pred())
}

/// One synthesized read accessor: the owning structure's name and generics,
/// and the field it reads.
#[derive(Debug)]
pub struct Accessor {
    pub struct_name: String,
    pub generics: String,
    pub field_name: String,
    pub field_type: String,
}

/// Mathematical image of an `Accessor`.
pub struct AccessorModel {
    pub struct_name: Seq<char>,
    pub generics: Seq<char>,
    pub field_name: Seq<char>,
    pub field_type: Seq<char>,
}

impl DeepView for Accessor {
    type V = AccessorModel;

    open spec fn deep_view(&self) -> AccessorModel {
        AccessorModel {
            struct_name: self.struct_name.deep_view(),
            generics: self.generics.deep_view(),
            field_name: self.field_name.deep_view(),
            field_type: self.field_type.deep_view(),
        }
    }
}

/// The accessor synthesized for one field of the named structure.
pub open spec fn accessor_model(
    struct_name: Seq<char>,
    generics: Seq<char>,
    f: FieldDeclModel,
) -> AccessorModel {
    AccessorModel { struct_name, generics, field_name: f.name, field_type: f.ty }
}

/// One accessor per field, in field order.
pub open spec fn accessors_for(
    struct_name: Seq<char>,
    generics: Seq<char>,
    fields: Seq<FieldDeclModel>,
) -> Seq<AccessorModel> {
    fields.map_values(|f: FieldDeclModel| accessor_model(struct_name, generics, f))
}

/// The exact text of one generated declaration: an `impl` block that restates
/// the structure's generic-parameter list unchanged and holds one function,
/// named after the field, that borrows the receiver and returns a borrow of
/// the same-named field.
pub open spec fn rendered(a: AccessorModel) -> Seq<char> {
    "impl"@ + a.generics + " "@ + a.struct_name + a.generics
        + " {\n    /// Derived from ReadOnly\n    pub fn "@ + a.field_name + "(&self) -> &"@
        + a.field_type + " {\n        &self."@ + a.field_name + "\n    }\n}"@
}

/// The full generated text sequence for a named-field structure.
pub open spec fn generated_texts(d: crate::model::DefinitionModel) -> Seq<Seq<char>>
    recommends
        d.body matches DefinitionBodyModel::Structure(FieldsKindModel::Named(_)),
{
    match d.body {
        DefinitionBodyModel::Structure(FieldsKindModel::Named(fields)) => accessors_for(
            d.name,
            d.generics,
            eligible_fields(fields),
        ).map_values(|a: AccessorModel| rendered(a)),
        _ => Seq::empty(),
    }
}

/// What one invocation of the generator yields: either the generated
/// declarations, in declaration order minus excluded fields, or one of the
/// two fatal classification failures. A structure with unnamed fields or
/// with zero fields is an unsupported shape; only a structure with at least
/// one named field is valid input.
pub open spec fn generated_output(d: crate::model::DefinitionModel) -> Result<
    Seq<Seq<char>>,
    GenError,
> {
    match d.body {
        DefinitionBodyModel::Structure(FieldsKindModel::Named(fields)) => if fields.len() == 0 {
            Err(GenError::UnsupportedShape)
        } else {
            Ok(generated_texts(d))
        },
        DefinitionBodyModel::Structure(_) => Err(GenError::UnsupportedShape),
        _ => Err(GenError::UnsupportedDefinitionKind),
    }
}

/// Structure classifier: yields the field list of a structure with at least
/// one named field, and rejects every other definition shape fatally —
/// unnamed (positional) fields and zero fields are unsupported shapes, and a
/// definition that is no structure is an unsupported kind.
pub fn classify(def: &Definition) -> (r: Result<&Vec<FieldDecl>, GenError>)
    ensures
        match def.deep_view().body {
            DefinitionBodyModel::Structure(FieldsKindModel::Named(fs)) => if fs.len() == 0 {
                r matches Err(e) && e == GenError::UnsupportedShape
            } else {
                r matches Ok(fields) && fields.deep_view() == fs
            },
            DefinitionBodyModel::Structure(_) => r matches Err(e) && e
                == GenError::UnsupportedShape,
            _ => r matches Err(e) && e == GenError::UnsupportedDefinitionKind,
        },
{
    match &def.body {
        DefinitionBody::Structure(FieldsKind::Named(fields)) => if fields.len() == 0 {
            Err(GenError::UnsupportedShape)
        } else {
            Ok(fields)
        },
        DefinitionBody::Structure(_) => Err(GenError::UnsupportedShape),
        _ => Err(GenError::UnsupportedDefinitionKind),
    }
}

/// Whether this field carries the recognized exclusion marker.
pub fn field_is_excluded(f: &FieldDecl) -> (r: bool)
    ensures
        r == is_excluded(f.deep_view()),
{
    let marker: String = "NoRead".to_owned();
    let mut i: usize = 0;
    while i < f.markers.len()
        invariant
            i <= f.markers.len(),
            marker@ == exclusion_marker(),
            forall|j: int| 0 <= j < i ==> f.deep_view().markers[j] != exclusion_marker(),
        decreases f.markers.len() - i,
    {
        if f.markers[i] == marker {
            assert(f.deep_view().markers[i as int] == exclusion_marker());
            return true;
        }
        i += 1;
    }
    false
}

/// Field filter: the ordered subsequence of the declared fields that carry no
/// exclusion marker. The original field list is left untouched.
pub fn filter_eligible(fields: &Vec<FieldDecl>) -> (r: Vec<FieldDecl>)
    ensures
        r.deep_view() == eligible_fields(fields.deep_view()),
{
    let mut out: Vec<FieldDecl> = Vec::new();
    let mut i: usize = 0;
    while i < fields.len()
        invariant
            i <= fields.len(),
            out.deep_view() == fields.deep_view().take(i as int).filter(eligible_pred()),
        decreases fields.len() - i,
    {
        proof {
            let prefix = fields.deep_view().take(i as int);
            let next = fields.deep_view().take(i as int + 1);
            assert(next.drop_last() =~= prefix);
            assert(next.last() == fields.deep_view()[i as int]);
            reveal_with_fuel(Seq::filter, 2);
        }
        let ghost prev = out.deep_view();
        if !field_is_excluded(&fields[i]) {
            let copied = fields[i].clone();
            assert(copied.deep_view() == fields.deep_view()[i as int]);
            out.push(copied);
            proof {
                assert(out.deep_view() =~= prev.push(fields.deep_view()[i as int]));
                assert(out.deep_view() =~= fields.deep_view().take(i as int + 1).filter(
                    eligible_pred(),
                ));
            }
        } else {
            assert(out.deep_view() =~= fields.deep_view().take(i as int + 1).filter(
                eligible_pred(),
            ));
        }
        i += 1;
    }
    assert(fields.deep_view().take(fields.len() as int) =~= fields.deep_view());
    out
}

/// Accessor emitter: one accessor per eligible field, in input order, each
/// scoped under the owning structure's name and unmodified generic-parameter
/// list.
pub fn emit_accessors(name: &String, generics: &String, fields: &Vec<FieldDecl>) -> (r: Vec<
    Accessor,
>)
    ensures
        r.deep_view() == accessors_for(name@, generics@, fields.deep_view()),
{
    let mut out: Vec<Accessor> = Vec::new();
    let mut i: usize = 0;
    while i < fields.len()
        invariant
            i <= fields.len(),
            out.len() == i,
            forall|j: int| 0 <= j < i ==> out.deep_view()[j] == accessor_model(
                name@,
                generics@,
                fields.deep_view()[j],
            ),
        decreases fields.len() - i,
    {
        let f = &fields[i];
        let accessor = Accessor {
            struct_name: name.clone(),
            generics: generics.clone(),
            field_name: f.name.clone(),
            field_type: f.ty.clone(),
        };
        assert(accessor.deep_view() == accessor_model(
            name@,
            generics@,
            fields.deep_view()[i as int],
        ));
        let ghost prev = out.deep_view();
        out.push(accessor);
        proof {
            assert(out.deep_view() =~= prev.push(
                accessor_model(name@, generics@, fields.deep_view()[i as int]),
            ));
        }
        i += 1;
    }
    assert(out.deep_view() =~= accessors_for(name@, generics@, fields.deep_view()));
    out
}

/// Renders one accessor declaration as text.
pub fn render_accessor(a: &Accessor) -> (r: String)
    ensures
        r@ == rendered(a.deep_view()),
{
    let mut out = String::new();
    out.append("impl");
    out.append(a.generics.as_str());
    out.append(" ");
    out.append(a.struct_name.as_str());
    out.append(a.generics.as_str());
    out.append(" {\n    /// Derived from ReadOnly\n    pub fn ");
    out.append(a.field_name.as_str());
    out.append("(&self) -> &");
    out.append(a.field_type.as_str());
    out.append(" {\n        &self.");
    out.append(a.field_name.as_str());
    out.append("\n    }\n}");
    assert(out@ =~= rendered(a.deep_view()));
    out
}

impl Clone for FieldDecl {
    /// A fresh copy with the same name, type and markers.
    fn clone(&self) -> (r: Self)
        ensures
            r.deep_view() == self.deep_view(),
    {
        let mut markers: Vec<String> = Vec::new();
        let mut i: usize = 0;
        while i < self.markers.len()
            invariant
                i <= self.markers.len(),
                markers.len() == i,
                forall|j: int| 0 <= j < i ==> markers.deep_view()[j] == self.markers.deep_view()[j],
            decreases self.markers.len() - i,
        {
            let m = self.markers[i].clone();
            assert(m.deep_view() == self.markers.deep_view()[i as int]);
            let ghost prev = markers.deep_view();
            markers.push(m);
            proof {
                assert(markers.deep_view() =~= prev.push(self.markers.deep_view()[i as int]));
            }
            i += 1;
        }
        let r = FieldDecl { name: self.name.clone(), ty: self.ty.clone(), markers };
        assert(r.deep_view().markers =~= self.deep_view().markers);
        r
    }
}

} // verus!
