//! Schema metadata for entities stored in a relational table.
//!
//! An [`entity::EntityDefinition`] holds the fixed shape of one entity: a
//! table name and the entity's fields in declaration order, each under its
//! canonical name. From it the crate answers three questions:
//!
//! - which fields the entity has ([`entity::EntityDefinition::fields`]);
//! - which storage type a field has
//!   ([`entity::EntityDefinition::field_type`]): the type the declaration
//!   names, or else the type a [`mapper::ColumnMapper`] infers from the
//!   default value of the field's declared type;
//! - which constraint string a field has
//!   ([`entity::EntityDefinition::field_constraints`]): the storage type
//!   followed by `UNIQUE` and `NOT NULL` as the field's flags say.
//!
//! [`entity::EntityDefinition::sync_plan`] gathers the constraint strings of
//! all fields into the target state that schema synchronization brings a
//! table to.

pub mod constraints;
pub mod dialect;
pub mod entity;
pub mod field;
pub mod mapper;
pub mod naming;
pub mod sample;
pub mod sync;
pub mod text;
