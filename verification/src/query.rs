//! Opaque collaborators carried through a result unchanged: the query
//! arguments that produced a collection, the scalar-list rows attached to a
//! record, and the selected-fields descriptor used downstream to filter
//! implicit fields out of the response.

use vstd::prelude::*;
use crate::values::GraphqlId;
use crate::values::PrismaValue;

verus! {

/// The filter, ordering and pagination parameters that produced a collection
/// result. Retained on the result so later stages can trim excess records.
#[derive(Debug, Clone, PartialEq)]
pub struct QueryArguments {
    pub skip: Option<u64>,
    pub after: Option<GraphqlId>,
    pub first: Option<u64>,
    pub before: Option<GraphqlId>,
    pub last: Option<u64>,
}

impl QueryArguments {
    /// Arguments that neither filter, order nor paginate.
    pub fn empty() -> (r: Self)
        ensures
            r.skip is None,
            r.after is None,
            r.first is None,
            r.before is None,
            r.last is None,
    {
        QueryArguments { skip: None, after: None, first: None, before: None, last: None }
    }
}

/// The scalar-list values of one field for one record: the owning record's
/// identifier and the ordered list attached to it.
#[derive(Debug, Clone, PartialEq)]
pub struct ScalarListValues {
    pub record_id: GraphqlId,
    pub values: Vec<PrismaValue>,
}

/// One requested field: its name, and whether it was added implicitly (for
/// internal resolution needs) rather than asked for by the caller.
#[derive(Debug, Clone, PartialEq)]
pub struct SelectedField {
    pub name: String,
    pub implicit: bool,
}

/// Which fields were explicitly requested and which were implicitly added;
/// used downstream to filter the response.
#[derive(Debug, Clone, PartialEq)]
pub struct SelectedFields {
    pub elements: Vec<SelectedField>,
}

} // verus!
