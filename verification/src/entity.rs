//! Entity definitions: the fixed shape of one entity, and lookups by field
//! name.

use crate::constraints::{lemma_unflagged_text, lemma_unique_not_null_text};
use crate::field::{FieldDeclaration, FieldInput, FieldInputSpec, FieldSpec};
use crate::mapper::ColumnMapper;
use crate::naming::{canonical_name, snake_case};
use crate::sample::SampleSpec;
use crate::text::{is_whitespace, trimmed};
use vstd::prelude::*;

verus! {

/// Mathematical content of an [`EntityDefinition`].
pub struct EntitySpec {
    pub table_name: Seq<char>,
    pub fields: Seq<FieldSpec>,
}

impl EntitySpec {
    /// The field names, in declaration order.
    pub open spec fn names(self) -> Seq<Seq<char>> {
        Seq::new(self.fields.len(), |i: int| self.fields[i].name)
    }

    /// No two fields share a name.
    pub open spec fn wf(self) -> bool {
        self.names().no_duplicates()
    }

    /// Whether a field is declared under exactly this name.
    pub open spec fn has_field(self, name: Seq<char>) -> bool {
        self.names().contains(name)
    }

    /// The field declared under `name`.
    pub open spec fn field(self, name: Seq<char>) -> FieldSpec
        recommends
            self.has_field(name),
    {
        self.fields[self.names().index_of(name)]
    }

    /// The storage type of the field `name`, or nothing where the entity
    /// declares no such field.
    pub open spec fn field_type<M: ColumnMapper>(self, name: Seq<char>, mapper: M) -> Option<
        Seq<char>,
    > {
        if self.has_field(name) {
            Some(self.field(name).storage_type(mapper))
        } else {
            None
        }
    }

    /// The constraint string of the field `name`, or nothing where the
    /// entity declares no such field.
    pub open spec fn field_constraints<M: ColumnMapper>(
        self,
        name: Seq<char>,
        mapper: M,
    ) -> Option<Seq<char>> {
        if self.has_field(name) {
            Some(self.field(name).constraints(mapper))
        } else {
            None
        }
    }
}

/// The mathematical content of a list of declared fields.
pub open spec fn input_views(inputs: Seq<FieldInput>) -> Seq<FieldInputSpec> {
    Seq::new(inputs.len(), |i: int| inputs[i]@)
}

/// The mathematical content of a list of field declarations.
pub open spec fn declaration_views(fields: Seq<FieldDeclaration>) -> Seq<FieldSpec> {
    Seq::new(fields.len(), |i: int| fields[i]@)
}

/// The entity that a declaration describes: the table name is the explicit
/// one or else the canonical form of the entity's name, and the fields are
/// the declared ones, normalized, in declaration order.
pub open spec fn declared(
    entity_name: Seq<char>,
    table_name: Option<Seq<char>>,
    inputs: Seq<FieldInputSpec>,
) -> EntitySpec {
    EntitySpec {
        table_name: match table_name {
            Some(explicit) => explicit,
            None => snake_case(entity_name),
        },
        fields: Seq::new(inputs.len(), |i: int| inputs[i].normalized()),
    }
}

/// The names of a declared entity are the canonical forms of the field names
/// as written, position by position.
pub proof fn lemma_declared_names_are_canonical(
    entity_name: Seq<char>,
    table_name: Option<Seq<char>>,
    inputs: Seq<FieldInputSpec>,
    at: int,
)
    requires
        0 <= at < inputs.len(),
    ensures
        declared(entity_name, table_name, inputs).names().len() == inputs.len(),
        declared(entity_name, table_name, inputs).names()[at] == snake_case(inputs[at].name),
{
}

/// Whether `at` is the first position whose name occurs earlier in `names`.
pub open spec fn first_repeat(names: Seq<Seq<char>>, at: int) -> bool {
    &&& 0 <= at < names.len()
    &&& names.subrange(0, at).no_duplicates()
    &&& names.subrange(0, at).contains(names[at])
}

/// The first name in `names` that repeats an earlier one.
pub open spec fn first_repeated(names: Seq<Seq<char>>) -> Seq<char>
    recommends
        !names.no_duplicates(),
{
    names[choose|at: int| first_repeat(names, at)]
}

/// At most one position is the first to repeat an earlier name.
pub proof fn lemma_first_repeat_is_unique(names: Seq<Seq<char>>, a: int, b: int)
    requires
        first_repeat(names, a),
        first_repeat(names, b),
    ensures
        a == b,
{
    if a < b {
        let earlier = names.subrange(0, b);
        let k = names.subrange(0, a).index_of(names[a]);
        assert(names.subrange(0, a)[k] == names[a]);
        assert(earlier[k] == earlier[a]);
    } else if b < a {
        let earlier = names.subrange(0, a);
        let k = names.subrange(0, b).index_of(names[b]);
        assert(names.subrange(0, b)[k] == names[b]);
        assert(earlier[k] == earlier[b]);
    }
}

/// Why a declaration describes no entity.
#[derive(Debug)]
pub enum DefinitionError {
    /// Two declared fields have this canonical name.
    DuplicateField(String),
}

/// The fixed shape of one entity: its table name and its fields in
/// declaration order. No two fields share a name.
#[derive(Debug)]
pub struct EntityDefinition {
    table_name: String,
    fields: Vec<FieldDeclaration>,
}

impl View for EntityDefinition {
    type V = EntitySpec;

    closed spec fn view(&self) -> EntitySpec {
        EntitySpec { table_name: self.table_name@, fields: declaration_views(self.fields@) }
    }
}

/// Finds the first declaration whose name is exactly `name`.
pub fn position_of(fields: &Vec<FieldDeclaration>, name: &str) -> (at: Option<usize>)
    ensures
        match at {
            Some(k) => {
                &&& k < fields@.len()
                &&& fields@[k as int].name@ == name@
                &&& forall|j: int| 0 <= j < k ==> fields@[j].name@ != name@
            },
            None => forall|j: int| 0 <= j < fields@.len() ==> fields@[j].name@ != name@,
        },
{
    let key = name.to_owned();
    let mut k: usize = 0;
    while k < fields.len()
        invariant
            k <= fields@.len(),
            key@ == name@,
            forall|j: int| 0 <= j < k ==> fields@[j].name@ != name@,
        decreases fields@.len() - k,
    {
        if fields[k].name == key {
            return Some(k);
        }
        k = k + 1;
    }
    None
}

impl EntityDefinition {
    #[verifier::type_invariant]
    spec fn well_formed(&self) -> bool {
        self@.wf()
    }

    /// Builds the definition of an entity from its declaration.
    ///
    /// Field names are brought into canonical form. The declaration is
    /// refused where two fields then share a name; the error carries the
    /// name of the first field that repeats an earlier one.
    pub fn new(entity_name: &str, table_name: Option<String>, inputs: Vec<FieldInput>) -> (made:
        Result<EntityDefinition, DefinitionError>)
        ensures
            ({
                let target = declared(entity_name@, table_name.deep_view(), input_views(inputs@));
                match made {
                    Ok(def) => target.names().no_duplicates() && def@ == target,
                    Err(DefinitionError::DuplicateField(name)) => !target.names().no_duplicates()
                        && name@ == first_repeated(target.names()),
                }
            }),
    {
        let ghost target = declared(entity_name@, table_name.deep_view(), input_views(inputs@));
        let mut remaining = inputs;
        let mut fields: Vec<FieldDeclaration> = Vec::new();
        while remaining.len() > 0
            invariant
                fields@.len() + remaining@.len() == target.fields.len(),
                forall|k: int| 0 <= k < fields@.len() ==> fields@[k]@ == target.fields[k],
                forall|k: int|
                    0 <= k < remaining@.len() ==> (#[trigger] remaining@[k])@.normalized()
                        == target.fields[fields@.len() + k],
            decreases remaining@.len(),
        {
            let input = remaining.remove(0);
            fields.push(FieldDeclaration::declare(input));
        }
        let table_name = match table_name {
            Some(explicit) => explicit,
            None => canonical_name(entity_name),
        };
        assert(declaration_views(fields@) =~= target.fields);
        EntityDefinition::from_declarations(table_name, fields)
    }

    /// Builds the definition of an entity from a table name and from field
    /// declarations that are taken as they are.
    ///
    /// The declarations are refused where two of them share a name; the
    /// error carries the first name that repeats an earlier one.
    pub fn from_declarations(table_name: String, fields: Vec<FieldDeclaration>) -> (made: Result<
        EntityDefinition,
        DefinitionError,
    >)
        ensures
            ({
                let target = EntitySpec {
                    table_name: table_name@,
                    fields: declaration_views(fields@),
                };
                match made {
                    Ok(def) => target.names().no_duplicates() && def@ == target,
                    Err(DefinitionError::DuplicateField(name)) => !target.names().no_duplicates()
                        && name@ == first_repeated(target.names()),
                }
            }),
    {
        let ghost names = EntitySpec {
            table_name: table_name@,
            fields: declaration_views(fields@),
        }.names();
        let mut i: usize = 0;
        while i < fields.len()
            invariant
                i <= fields@.len(),
                names == (EntitySpec {
                    table_name: table_name@,
                    fields: declaration_views(fields@),
                }).names(),
                names.subrange(0, i as int).no_duplicates(),
            decreases fields@.len() - i,
        {
            match position_of(&fields, fields[i].name.as_str()) {
                Some(k) => {
                    if k < i {
                        proof {
                            assert(names.subrange(0, i as int)[k as int] == names[i as int]);
                            assert(first_repeat(names, i as int));
                            assert(names[k as int] == names[i as int]);
                            lemma_first_repeat_is_unique(
                                names,
                                i as int,
                                choose|at: int| first_repeat(names, at),
                            );
                        }
                        return Err(DefinitionError::DuplicateField(fields[i].name.clone()));
                    }
                },
                None => {},
            }
            proof {
                let before = names.subrange(0, i as int);
                let after = names.subrange(0, i as int + 1);
                assert forall|a: int, b: int|
                    0 <= a < after.len() && 0 <= b < after.len() && a != b implies after[a]
                    != after[b] by {
                    if a < i && b < i {
                        assert(before[a] != before[b]);
                    }
                }
            }
            i = i + 1;
        }
        proof {
            assert(names.subrange(0, i as int) =~= names);
        }
        Ok(EntityDefinition { table_name, fields })
    }

    /// The field names, in declaration order. No name occurs twice.
    pub fn fields(&self) -> (names: Vec<String>)
        ensures
            names@.len() == self@.names().len(),
            forall|i: int| 0 <= i < names@.len() ==> names@[i]@ == self@.names()[i],
            self@.wf(),
    {
        proof {
            use_type_invariant(self);
        }
        let mut names: Vec<String> = Vec::new();
        let mut i: usize = 0;
        while i < self.fields.len()
            invariant
                i <= self.fields@.len(),
                names@.len() == i,
                forall|k: int| 0 <= k < i ==> names@[k]@ == self.fields@[k].name@,
            decreases self.fields@.len() - i,
        {
            names.push(self.fields[i].name.clone());
            i = i + 1;
        }
        names
    }

    /// The name of the table that stores the entity.
    pub fn table_name(&self) -> (name: &str)
        ensures
            name@ == self@.table_name,
    {
        self.table_name.as_str()
    }

    /// The number of declared fields.
    pub fn len(&self) -> (n: usize)
        ensures
            n == self@.fields.len(),
            self@.wf(),
    {
        proof {
            use_type_invariant(self);
        }
        self.fields.len()
    }

    /// The declaration at position `at` in declaration order.
    pub fn declaration(&self, at: usize) -> (decl: &FieldDeclaration)
        requires
            at < self@.fields.len(),
        ensures
            decl@ == self@.fields[at as int],
    {
        &self.fields[at]
    }

    /// Looks a field up by its exact canonical name.
    pub fn field(&self, name: &str) -> (found: Option<&FieldDeclaration>)
        ensures
            found is Some <==> self@.has_field(name@),
            found matches Some(decl) ==> decl@ == self@.field(name@),
    {
        proof {
            use_type_invariant(self);
        }
        match position_of(&self.fields, name) {
            Some(k) => {
                proof {
                    let names = self@.names();
                    assert(names[k as int] == name@);
                    assert(names.index_of(name@) == k);
                }
                Some(&self.fields[k])
            },
            None => None,
        }
    }

    /// Resolves the storage type of the field named `field`.
    ///
    /// An unknown name gives `None`. An explicit type is returned as it is
    /// declared; otherwise the mapper infers the type from the field's
    /// canonical name and sample value.
    pub fn field_type<M: ColumnMapper>(&self, field: &str, mapper: &M) -> (ty: Option<String>)
        ensures
            ty.deep_view() == self@.field_type(field@, *mapper),
    {
        match self.field(field) {
            Some(decl) => Some(decl.storage_type(mapper)),
            None => None,
        }
    }

    /// Composes the constraint string of the field named `field`: its
    /// storage type, then `UNIQUE` and `NOT NULL` as its flags say.
    ///
    /// An unknown name gives `None`.
    pub fn field_constraints<M: ColumnMapper>(&self, field: &str, mapper: &M) -> (text: Option<
        String,
    >)
        ensures
            text.deep_view() == self@.field_constraints(field@, *mapper),
    {
        match self.field(field) {
            Some(decl) => Some(decl.constraints(mapper)),
            None => None,
        }
    }
}

/// A name that the entity does not list resolves to nothing: neither a
/// storage type nor a constraint string, whatever the mapper.
pub proof fn lemma_unknown_field_resolves_to_nothing<M: ColumnMapper>(
    entity: EntitySpec,
    name: Seq<char>,
    mapper: M,
)
    requires
        !entity.has_field(name),
    ensures
        entity.field_type(name, mapper) is None,
        entity.field_constraints(name, mapper) is None,
{
}

/// Every listed name resolves, and to the field at its own position: the
/// list of names and the lookup cannot disagree.
pub proof fn lemma_listed_field_resolves<M: ColumnMapper>(entity: EntitySpec, at: int, mapper: M)
    requires
        entity.wf(),
        0 <= at < entity.fields.len(),
    ensures
        entity.has_field(entity.names()[at]),
        entity.field(entity.names()[at]) == entity.fields[at],
        entity.field_type(entity.names()[at], mapper) == Some(
            entity.fields[at].storage_type(mapper),
        ),
        entity.field_constraints(entity.names()[at], mapper) == Some(
            entity.fields[at].constraints(mapper),
        ),
{
    let names = entity.names();
    assert(names[at] == names[at]);
    assert(names.contains(names[at]));
    assert(names.index_of(names[at]) == at);
}

/// A field with an explicit type resolves to exactly that type, whatever
/// the mapper: the mapper has no part in the answer.
pub proof fn lemma_explicit_type_is_returned<M: ColumnMapper>(
    entity: EntitySpec,
    name: Seq<char>,
    mapper: M,
)
    requires
        entity.has_field(name),
        entity.field(name).source is Explicit,
    ensures
        entity.field_type(name, mapper) == Some(entity.field(name).source->Explicit_0),
{
}

/// A field that is unique and not null has the constraint string
/// `<type> UNIQUE NOT NULL`: its storage type, one space, `UNIQUE`, one
/// space, `NOT NULL`, and nothing after. This holds for every storage type
/// that starts with a character other than whitespace.
pub proof fn lemma_unique_not_null_field<M: ColumnMapper>(
    entity: EntitySpec,
    name: Seq<char>,
    mapper: M,
)
    requires
        entity.has_field(name),
        entity.field(name).unique,
        entity.field(name).not_null,
        entity.field(name).storage_type(mapper).len() > 0,
        !is_whitespace(entity.field(name).storage_type(mapper).first()),
    ensures
        entity.field_constraints(name, mapper) == Some(
            entity.field(name).storage_type(mapper) + " UNIQUE NOT NULL"@,
        ),
{
    lemma_unique_not_null_text(entity.field(name).storage_type(mapper));
}

/// A field without flags has its trimmed storage type as its constraint
/// string, and the storage type itself where that has no outer whitespace.
pub proof fn lemma_unflagged_field<M: ColumnMapper>(
    entity: EntitySpec,
    name: Seq<char>,
    mapper: M,
)
    requires
        entity.has_field(name),
        !entity.field(name).unique,
        !entity.field(name).not_null,
    ensures
        entity.field_constraints(name, mapper) == Some(
            trimmed(entity.field(name).storage_type(mapper)),
        ),
        ({
            let ty = entity.field(name).storage_type(mapper);
            ty.len() > 0 && !is_whitespace(ty.first()) && !is_whitespace(ty.last())
                ==> entity.field_constraints(name, mapper) == Some(ty)
        }),
{
    lemma_unflagged_text(entity.field(name).storage_type(mapper));
}

/// Lookups are repeatable: two mappers that infer the same types give the
/// same storage type and the same constraint string for every name.
pub proof fn lemma_equivalent_mappers_resolve_alike<M: ColumnMapper, N: ColumnMapper>(
    entity: EntitySpec,
    name: Seq<char>,
    first: M,
    second: N,
)
    requires
        forall|field: Seq<char>, sample: SampleSpec| #[trigger]
            first.column_type(field, sample) == second.column_type(field, sample),
    ensures
        entity.field_type(name, first) == entity.field_type(name, second),
        entity.field_constraints(name, first) == entity.field_constraints(name, second),
{
}

} // verus!
