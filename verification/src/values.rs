//! The scalar value model: a discriminated scalar value, one variant of which
//! marks a record's unique identifier.

use vstd::prelude::*;

verus! {

/// A record's unique identifier, either textual or numeric.
#[derive(Debug, Clone, PartialEq, Eq, Hash)]
pub enum GraphqlId {
    Text(String),
    Int(u64),
}

/// A scalar value as it comes back from the query engine. The variant
/// `PrismaValue::GraphqlId` is the distinguished identifier discriminant that
/// the lookup operations of this crate test for.
#[derive(Debug, Clone, PartialEq)]
pub enum PrismaValue {
    Text(String),
    Boolean(bool),
    Int(i64),
    Null,
    GraphqlId(GraphqlId),
}

impl PrismaValue {
    /// The identifier carried by this value, if it is identifier-typed.
    pub open spec fn spec_as_id(self) -> Option<GraphqlId> {
        match self {
            PrismaValue::GraphqlId(id) => Some(id),
            _ => None,
        }
    }
}

} // verus!
