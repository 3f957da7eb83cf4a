//! Core of an ORM: condition trees flattened into a query context, length-limited
//! strings, fixed-capacity buffers, a djb2 hasher and SQL statement builders; the
//! analysis of a model's derive input and the names the derives generate; field
//! annotations and columns; back references; the decisions of the migration runner;
//! and the models and request decisions of an example forum server.
use vstd::prelude::*;

pub mod alias;
pub mod analyze;
pub mod annotations;
pub mod back_ref;
pub mod conditions;
pub mod const_concat;
pub mod derive;
pub mod djb2;
pub mod fields;
pub mod forum;
pub mod imr;
pub mod max_str;
pub mod migrate;
pub mod naming;
pub mod query_context;
pub mod sql;
pub mod test_client;
pub mod update;

verus! {
} // verus!
