//! Field declarations: one normalized record per entity field.

use crate::constraints::{compose_constraints, constraint_text};
use crate::mapper::ColumnMapper;
use crate::naming::{canonical_name, snake_case};
use crate::sample::{default_sample, DeclaredType, SampleSpec, SampleValue};
use vstd::prelude::*;

verus! {

/// Where the storage type of a field comes from.
#[derive(Debug)]
pub enum TypeSource {
    /// The declaration names the type; no mapper is consulted.
    Explicit(String),
    /// A column mapper infers the type from the field's sample value.
    Inferred,
}

/// Mathematical content of a [`TypeSource`].
pub enum TypeSourceSpec {
    Explicit(Seq<char>),
    Inferred,
}

impl View for TypeSource {
    type V = TypeSourceSpec;

    open spec fn view(&self) -> TypeSourceSpec {
        match self {
            TypeSource::Explicit(ty) => TypeSourceSpec::Explicit(ty@),
            TypeSource::Inferred => TypeSourceSpec::Inferred,
        }
    }
}

/// A field as its entity declares it, before normalization.
#[derive(Debug)]
pub struct FieldInput {
    /// The field's name as written in the declaration.
    pub name: String,
    /// The value type the field is declared with.
    pub declared_type: DeclaredType,
    pub unique: bool,
    pub not_null: bool,
    pub select: bool,
    /// An explicit storage type, which replaces inference when present.
    pub sql_type: Option<String>,
}

/// Mathematical content of a [`FieldInput`].
pub struct FieldInputSpec {
    pub name: Seq<char>,
    /// The default value of the declared type.
    pub sample: SampleSpec,
    pub unique: bool,
    pub not_null: bool,
    pub select: bool,
    pub sql_type: Option<Seq<char>>,
}

impl View for FieldInput {
    type V = FieldInputSpec;

    open spec fn view(&self) -> FieldInputSpec {
        FieldInputSpec {
            name: self.name@,
            sample: default_sample(self.declared_type),
            unique: self.unique,
            not_null: self.not_null,
            select: self.select,
            sql_type: match self.sql_type {
                Some(ty) => Some(ty@),
                None => None,
            },
        }
    }
}

impl FieldInputSpec {
    /// The declaration this input normalizes to: the name in canonical
    /// form, and an explicit type override taking the place of inference.
    pub open spec fn normalized(self) -> FieldSpec {
        FieldSpec {
            name: snake_case(self.name),
            sample: self.sample,
            unique: self.unique,
            not_null: self.not_null,
            select: self.select,
            source: match self.sql_type {
                Some(ty) => TypeSourceSpec::Explicit(ty),
                None => TypeSourceSpec::Inferred,
            },
        }
    }
}

/// The normalized record of one entity field.
#[derive(Debug)]
pub struct FieldDeclaration {
    /// The canonical name, by which the field is listed and looked up.
    pub name: String,
    /// The default value of the field's declared type, which a mapper is
    /// shown.
    pub sample: SampleValue,
    pub unique: bool,
    pub not_null: bool,
    /// Whether the field takes part in selects; type and constraint
    /// resolution do not read it.
    pub select: bool,
    pub source: TypeSource,
}

/// Mathematical content of a [`FieldDeclaration`].
pub struct FieldSpec {
    pub name: Seq<char>,
    pub sample: SampleSpec,
    pub unique: bool,
    pub not_null: bool,
    pub select: bool,
    pub source: TypeSourceSpec,
}

impl View for FieldDeclaration {
    type V = FieldSpec;

    open spec fn view(&self) -> FieldSpec {
        FieldSpec {
            name: self.name@,
            sample: self.sample@,
            unique: self.unique,
            not_null: self.not_null,
            select: self.select,
            source: self.source@,
        }
    }
}

impl FieldSpec {
    /// The storage type of the field: the explicit type where one is
    /// declared, otherwise what `mapper` infers for the field's name and
    /// sample, the default value of its declared type.
    pub open spec fn storage_type<M: ColumnMapper>(self, mapper: M) -> Seq<char> {
        match self.source {
            TypeSourceSpec::Explicit(ty) => ty,
            TypeSourceSpec::Inferred => mapper.column_type(self.name, self.sample),
        }
    }

    /// The constraint string of the field: its storage type followed by the
    /// keywords of its flags.
    pub open spec fn constraints<M: ColumnMapper>(self, mapper: M) -> Seq<char> {
        constraint_text(self.storage_type(mapper), self.unique, self.not_null)
    }
}

impl FieldDeclaration {
    /// Normalizes a declared field: the name is brought into canonical
    /// form, the declared type gives its default value, and an explicit
    /// type takes the place of inference.
    pub fn declare(input: FieldInput) -> (decl: FieldDeclaration)
        ensures
            decl@ == input@.normalized(),
    {
        let name = canonical_name(input.name.as_str());
        FieldDeclaration {
            name,
            sample: input.declared_type.into_sample(),
            unique: input.unique,
            not_null: input.not_null,
            select: input.select,
            source: match input.sql_type {
                Some(ty) => TypeSource::Explicit(ty),
                None => TypeSource::Inferred,
            },
        }
    }

    /// Resolves the storage type of the field. The mapper is consulted only
    /// where the declaration names no type.
    pub fn storage_type<M: ColumnMapper>(&self, mapper: &M) -> (ty: String)
        ensures
            ty@ == self@.storage_type(*mapper),
    {
        match &self.source {
            TypeSource::Explicit(ty) => ty.clone(),
            TypeSource::Inferred => mapper.infer_type(self.name.as_str(), &self.sample),
        }
    }

    /// Composes the constraint string of the field.
    pub fn constraints<M: ColumnMapper>(&self, mapper: &M) -> (text: String)
        ensures
            text@ == self@.constraints(*mapper),
    {
        let ty = self.storage_type(mapper);
        compose_constraints(ty.as_str(), self.unique, self.not_null)
    }
}

/// A declared field without an explicit type resolves to what the mapper
/// infers for its canonical name and the default value of its declared
/// type, whatever that type is.
pub proof fn lemma_inferred_type_is_the_mapper_answer<M: ColumnMapper>(
    input: FieldInput,
    mapper: M,
)
    requires
        input.sql_type is None,
    ensures
        input@.normalized().storage_type(mapper) == mapper.column_type(
            snake_case(input.name@),
            default_sample(input.declared_type),
        ),
{
}

/// An explicit type is the storage type under every mapper.
pub proof fn lemma_explicit_type_wins<M: ColumnMapper>(field: FieldSpec, mapper: M)
    requires
        field.source is Explicit,
    ensures
        field.storage_type(mapper) == field.source->Explicit_0,
{
}

/// Two mappers that infer the same type for a field's name and sample give
/// the field the same storage type and the same constraint string.
pub proof fn lemma_agreeing_mappers_resolve_alike<M: ColumnMapper, N: ColumnMapper>(
    field: FieldSpec,
    first: M,
    second: N,
)
    requires
        first.column_type(field.name, field.sample) == second.column_type(
            field.name,
            field.sample,
        ),
    ensures
        field.storage_type(first) == field.storage_type(second),
        field.constraints(first) == field.constraints(second),
{
}

} // verus!
