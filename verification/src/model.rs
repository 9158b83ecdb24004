//! The data model: a parsed type definition as plain values.
//!
//! Every entity is purely syntactic and lives for one generator invocation.
//! Identifiers, type expressions and the generic-parameter list are carried as
//! text: the generator never interprets a field's type, it only copies it.

use vstd::prelude::*;

verus! {

/// One declared field: its name, its declared type (opaque text), and the
/// names of the markers attached to it.
#[derive(Debug)]
pub struct FieldDecl {
    pub name: String,
    pub ty: String,
    pub markers: Vec<String>,
}

/// Mathematical image of a `FieldDecl`.
pub struct FieldDeclModel {
    pub name: Seq<char>,
    pub ty: Seq<char>,
    pub markers: Seq<Seq<char>>,
}

impl DeepView for FieldDecl {
    type V = FieldDeclModel;

    open spec fn deep_view(&self) -> FieldDeclModel {
        FieldDeclModel {
            name: self.name.deep_view(),
            ty: self.ty.deep_view(),
            markers: self.markers.deep_view(),
        }
    }
}

/// The shape of a structure's field list.
#[derive(Debug)]
pub enum FieldsKind {
    /// Named fields, in declaration order. Only a non-empty list of them is
    /// valid input for the generator.
    Named(Vec<FieldDecl>),
    /// Unnamed (positional) fields. The generator never reads them, so they
    /// are not carried.
    Unnamed,
    /// No field list at all (a unit structure).
    Unit,
}

/// Mathematical image of a `FieldsKind`.
pub enum FieldsKindModel {
    Named(Seq<FieldDeclModel>),
    Unnamed,
    Unit,
}

impl DeepView for FieldsKind {
    type V = FieldsKindModel;

    open spec fn deep_view(&self) -> FieldsKindModel {
        match self {
            FieldsKind::Named(fields) => FieldsKindModel::Named(fields.deep_view()),
            FieldsKind::Unnamed => FieldsKindModel::Unnamed,
            FieldsKind::Unit => FieldsKindModel::Unit,
        }
    }
}

/// What kind of item the definition is.
#[derive(Debug)]
pub enum DefinitionBody {
    /// A structure, with the shape of its field list.
    Structure(FieldsKind),
    /// An enumeration.
    Enumeration,
    /// A union.
    Union,
}

/// Mathematical image of a `DefinitionBody`.
pub enum DefinitionBodyModel {
    Structure(FieldsKindModel),
    Enumeration,
    Union,
}

impl DeepView for DefinitionBody {
    type V = DefinitionBodyModel;

    open spec fn deep_view(&self) -> DefinitionBodyModel {
        match self {
            DefinitionBody::Structure(fields) => DefinitionBodyModel::Structure(
                fields.deep_view(),
            ),
            DefinitionBody::Enumeration => DefinitionBodyModel::Enumeration,
            DefinitionBody::Union => DefinitionBodyModel::Union,
        }
    }
}

/// A parsed top-level type definition: its name, its generic-parameter list
/// (possibly empty, carried opaquely and re-emitted unchanged, angle brackets
/// included, e.g. `<'a, T>`), and its body.
#[derive(Debug)]
pub struct Definition {
    pub name: String,
    pub generics: String,
    pub body: DefinitionBody,
}

/// Mathematical image of a `Definition`.
pub struct DefinitionModel {
    pub name: Seq<char>,
    pub generics: Seq<char>,
    pub body: DefinitionBodyModel,
}

impl DeepView for Definition {
    type V = DefinitionModel;

    open spec fn deep_view(&self) -> DefinitionModel {
        DefinitionModel {
            name: self.name.deep_view(),
            generics: self.generics.deep_view(),
            body: self.body.deep_view(),
        }
    }
}

} // verus!
