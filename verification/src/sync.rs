//! The target state handed to schema synchronization: one constraint string
//! per field of an entity.

use crate::entity::{lemma_listed_field_resolves, EntityDefinition, EntitySpec};
use crate::mapper::ColumnMapper;
use vstd::prelude::*;

verus! {

/// One column of the target state.
#[derive(Debug)]
pub struct ColumnPlan {
    /// The canonical field name.
    pub name: String,
    /// The field's constraint string.
    pub constraints: String,
}

/// Mathematical content of a [`ColumnPlan`].
pub struct ColumnSpec {
    pub name: Seq<char>,
    pub constraints: Seq<char>,
}

impl View for ColumnPlan {
    type V = ColumnSpec;

    open spec fn view(&self) -> ColumnSpec {
        ColumnSpec { name: self.name@, constraints: self.constraints@ }
    }
}

/// The declared state of a table: its name and a constraint string for
/// every field, in declaration order.
#[derive(Debug)]
pub struct SyncPlan {
    pub table_name: String,
    pub columns: Vec<ColumnPlan>,
}

/// Mathematical content of a [`SyncPlan`].
pub struct SyncPlanSpec {
    pub table_name: Seq<char>,
    pub columns: Seq<ColumnSpec>,
}

impl View for SyncPlan {
    type V = SyncPlanSpec;

    open spec fn view(&self) -> SyncPlanSpec {
        SyncPlanSpec {
            table_name: self.table_name@,
            columns: Seq::new(self.columns@.len(), |i: int| self.columns@[i]@),
        }
    }
}

impl SyncPlanSpec {
    /// The names of the planned columns, in order.
    pub open spec fn names(self) -> Seq<Seq<char>> {
        Seq::new(self.columns.len(), |i: int| self.columns[i].name)
    }

    /// The constraint string planned for the column `name`, or nothing
    /// where the plan has no such column.
    pub open spec fn constraints_of(self, name: Seq<char>) -> Option<Seq<char>> {
        if self.names().contains(name) {
            Some(self.columns[self.names().index_of(name)].constraints)
        } else {
            None
        }
    }
}

impl EntitySpec {
    /// The target state of the entity's table under `mapper`: every field,
    /// in declaration order, with its constraint string.
    pub open spec fn sync_plan<M: ColumnMapper>(self, mapper: M) -> SyncPlanSpec {
        SyncPlanSpec {
            table_name: self.table_name,
            columns: Seq::new(
                self.fields.len(),
                |i: int|
                    ColumnSpec {
                        name: self.fields[i].name,
                        constraints: self.fields[i].constraints(mapper),
                    },
            ),
        }
    }
}

impl EntityDefinition {
    /// Assembles the target state of the entity's table: the constraint
    /// string of every field, in declaration order, under the table's name.
    /// No column name occurs twice.
    pub fn sync_plan<M: ColumnMapper>(&self, mapper: &M) -> (plan: SyncPlan)
        ensures
            plan@ == self@.sync_plan(*mapper),
            plan.columns@.len() == self@.fields.len(),
            plan@.names().no_duplicates(),
    {
        let count = self.len();
        proof {
            lemma_plan_is_the_lookup(self@, Seq::empty(), *mapper);
        }
        let mut columns: Vec<ColumnPlan> = Vec::new();
        let mut i: usize = 0;
        while i < count
            invariant
                count == self@.fields.len(),
                i <= self@.fields.len(),
                columns@.len() == i,
                forall|k: int| 0 <= k < i ==> columns@[k]@ == self@.sync_plan(*mapper).columns[k],
            decreases self@.fields.len() - i,
        {
            let decl = self.declaration(i);
            columns.push(
                ColumnPlan { name: decl.name.clone(), constraints: decl.constraints(mapper) },
            );
            i = i + 1;
        }
        let plan = SyncPlan { table_name: self.table_name().to_owned(), columns };
        assert(plan@.columns =~= self@.sync_plan(*mapper).columns);
        plan
    }
}

/// The plan is the lookups, field by field: each column carries a listed
/// name and the constraint string that a lookup of that name gives, so no
/// listed field is left without one.
pub proof fn lemma_plan_matches_lookups<M: ColumnMapper>(entity: EntitySpec, at: int, mapper: M)
    requires
        entity.wf(),
        0 <= at < entity.fields.len(),
    ensures
        entity.sync_plan(mapper).columns.len() == entity.fields.len(),
        entity.sync_plan(mapper).columns[at].name == entity.names()[at],
        entity.field_constraints(entity.names()[at], mapper) == Some(
            entity.sync_plan(mapper).columns[at].constraints,
        ),
{
    lemma_listed_field_resolves(entity, at, mapper);
}

/// Read as a mapping from names to constraint strings, the plan is the
/// lookup: it has a column for exactly the listed names, and for every name
/// it holds what a lookup of that name gives.
pub proof fn lemma_plan_is_the_lookup<M: ColumnMapper>(
    entity: EntitySpec,
    name: Seq<char>,
    mapper: M,
)
    ensures
        entity.sync_plan(mapper).names() == entity.names(),
        entity.sync_plan(mapper).constraints_of(name) == entity.field_constraints(name, mapper),
{
    assert(entity.sync_plan(mapper).names() =~= entity.names());
}

} // verus!
