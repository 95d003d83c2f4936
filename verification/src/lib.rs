//! In-memory shape of the result of executing a read query, before it is
//! serialized into a client-facing response.
//!
//! A read query targets either a single record or a collection of records,
//! may carry nested relation results, and may carry scalar-list results held
//! separately from the main scalar record. This crate holds that
//! heterogeneous, recursively nested result in one well-defined shape and
//! offers safe accessors for the identifiers embedded in it.

pub mod query;
pub mod records;
pub mod result_ast;
pub mod values;

pub use query::{QueryArguments, ScalarListValues, SelectedField, SelectedFields};
pub use records::{ManyRecords, Record, SingleRecord};
pub use result_ast::{ManyReadQueryResults, ReadQueryResult, SingleReadQueryResult};
pub use values::{GraphqlId, PrismaValue};
