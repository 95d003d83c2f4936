//! Scalar record containers: the positionally aligned value rows produced by
//! the query engine, for a single matched record or a collection of them.

use vstd::prelude::*;
use crate::values::GraphqlId;
use crate::values::PrismaValue;

verus! {

/// One row of scalar values, positionally aligned with the field-name
/// sequence of the result that owns it, plus the parent-link slot used when
/// the row was resolved under a parent record.
#[derive(Debug, Clone, PartialEq)]
pub struct Record {
    pub values: Vec<PrismaValue>,
    pub parent_id: Option<GraphqlId>,
}

/// The container for a query that matched exactly one record.
#[derive(Debug, Clone, PartialEq)]
pub struct SingleRecord {
    pub record: Record,
}

/// The container for a query that matched zero or more records.
#[derive(Debug, Clone, PartialEq)]
pub struct ManyRecords {
    pub records: Vec<Record>,
}

} // verus!
