//! The result tree of a read query, and the identifier lookups on it.
//!
//! A result is either a [`SingleReadQueryResult`] (at most one matched
//! record) or a [`ManyReadQueryResults`] (a collection), wrapped in the
//! tagged union [`ReadQueryResult`] so nested relation results of either
//! shape can hang off a parent uniformly.

use vstd::prelude::*;
use crate::query::QueryArguments;
use crate::query::ScalarListValues;
use crate::query::SelectedFields;
use crate::records::ManyRecords;
use crate::records::SingleRecord;
use crate::values::GraphqlId;
use crate::values::PrismaValue;

verus! {

/// A read-query result of either shape, for uniform nesting and name lookup.
#[derive(Debug)]
pub enum ReadQueryResult {
    Single(SingleReadQueryResult),
    Many(ManyReadQueryResults),
}

/// The result of a query expected to match at most one record.
#[derive(Debug)]
pub struct SingleReadQueryResult {
    /// The query's logical name, used by the serializer to key the output.
    pub name: String,
    /// Requested scalar field names; positionally aligned with the value row
    /// of `scalars` when a record is present.
    pub fields: Vec<String>,
    /// The matched scalar record; `None` means no record matched.
    pub scalars: Option<SingleRecord>,
    /// Nested relation results, one per requested relation.
    pub nested: Vec<ReadQueryResult>,
    /// Scalar-list results: each requested scalar-list field name with its
    /// rows.
    pub lists: Vec<(String, Vec<ScalarListValues>)>,
    /// Which fields were explicitly requested; used downstream to filter
    /// implicit fields out of the response.
    pub selected_fields: SelectedFields,
}

/// The result of a query expected to match a collection of records.
///
/// Every field is private to this module, so the factory
/// [`ManyReadQueryResults::new`] is the sole way to obtain an instance and
/// sets every field atomically; readers go through the borrowing accessors.
#[derive(Debug)]
pub struct ManyReadQueryResults {
    name: String,
    fields: Vec<String>,
    scalars: ManyRecords,
    nested: Vec<ReadQueryResult>,
    lists: Vec<(String, Vec<ScalarListValues>)>,
    query_arguments: QueryArguments,
    selected_fields: SelectedFields,
}

/// The position of the first field literally named `"id"` in `fields`, from
/// index `i` on; `None` when no such field follows.
pub open spec fn id_position_from(fields: Seq<String>, i: nat) -> Option<int>
    decreases fields.len() - i,
{
    if i >= fields.len() {
        None
    } else if fields[i as int]@ == "id"@ {
        Some(i as int)
    } else {
        id_position_from(fields, i + 1)
    }
}

/// The position of the first field literally named `"id"`, or `None` when
/// `fields` holds no such name.
pub open spec fn id_position(fields: Seq<String>) -> Option<int> {
    id_position_from(fields, 0)
}

/// The identifier at position `k` of a value row: `Some` exactly when `k` is
/// in bounds and the value there is identifier-typed.
pub open spec fn record_value_id(values: Seq<PrismaValue>, k: int) -> Option<GraphqlId> {
    if 0 <= k < values.len() {
        values[k].spec_as_id()
    } else {
        None
    }
}

/// Finds the position of the first field literally named `"id"`, by
/// case-sensitive exact comparison; `None` when no field has that name.
fn id_field_position(fields: &Vec<String>) -> (r: Option<usize>)
    ensures
        match r {
            Some(k) => id_position(fields@) == Some(k as int),
            None => id_position(fields@) is None,
        },
{
    let needle: String = "id".to_owned();
    let mut i: usize = 0;
    while i < fields.len()
        invariant
            i <= fields@.len(),
            needle@ == "id"@,
            id_position(fields@) == id_position_from(fields@, i as nat),
        decreases fields@.len() - i,
    {
        if fields[i] == needle {
            return Some(i);
        }
        i = i + 1;
    }
    None
}

impl ReadQueryResult {
    /// The logical name of whichever variant is held.
    pub open spec fn spec_name(self) -> Seq<char> {
        match self {
            ReadQueryResult::Single(s) => s.name@,
            ReadQueryResult::Many(m) => m.spec_name(),
        }
    }

    /// Returns the wrapped variant's `name` unchanged, whichever variant is
    /// held; the one operation shared by both shapes.
    pub fn name(&self) -> (r: String)
        ensures
            r@ == self.spec_name(),
    {
        match self {
            ReadQueryResult::Single(s) => s.name.clone(),
            ReadQueryResult::Many(m) => m.name().clone(),
        }
    }
}

impl SingleReadQueryResult {
    /// The parent-link slot of the matched record, when one is present.
    pub open spec fn spec_parent_id(self) -> Option<GraphqlId> {
        match self.scalars {
            Some(sr) => sr.record.parent_id,
            None => None,
        }
    }

    /// What `find_id` yields: the value at the position of the first field
    /// named `"id"`, when such a field exists, a record is present, the
    /// position is within the record's row, and the value there is
    /// identifier-typed; `None` in every other case.
    pub open spec fn spec_find_id(self) -> Option<GraphqlId> {
        match id_position(self.fields@) {
            Some(k) => match self.scalars {
                Some(sr) => record_value_id(sr.record.values@, k),
                None => None,
            },
            None => None,
        }
    }

    /// The identifier of the parent record this result was resolved under,
    /// read from the record's dedicated parent-link slot; absent when no
    /// record matched or the record carries no parent link.
    pub fn parent_id(&self) -> (r: Option<&GraphqlId>)
        ensures
            match r {
                Some(id) => self.spec_parent_id() == Some(*id),
                None => self.spec_parent_id() is None,
            },
    {
        match &self.scalars {
            Some(sr) => sr.record.parent_id.as_ref(),
            None => None,
        }
    }

    /// Gets the identifier from the matched record, by the position of the
    /// first field named `"id"`. A missing `"id"` field, a missing record, a
    /// row too short to cover that position, or a value there that is not
    /// identifier-typed all yield `None`: "no identifier available" is a
    /// normal outcome, never an error.
    pub fn find_id(&self) -> (r: Option<&GraphqlId>)
        ensures
            match r {
                Some(id) => self.spec_find_id() == Some(*id),
                None => self.spec_find_id() is None,
            },
    {
        let k = match id_field_position(&self.fields) {
            Some(k) => k,
            None => {
                return None;
            },
        };
        let sr = match &self.scalars {
            Some(sr) => sr,
            None => {
                return None;
            },
        };
        if k < sr.record.values.len() {
            match &sr.record.values[k] {
                PrismaValue::GraphqlId(id) => Some(id),
                _ => None,
            }
        } else {
            None
        }
    }
}

impl ManyReadQueryResults {
    /// The query's logical name.
    pub closed spec fn spec_name(self) -> Seq<char> {
        self.name@
    }

    /// The requested scalar field names.
    pub closed spec fn spec_fields(self) -> Seq<String> {
        self.fields@
    }

    /// The matched scalar records.
    pub closed spec fn spec_scalars(self) -> ManyRecords {
        self.scalars
    }

    /// The nested relation results.
    pub closed spec fn spec_nested(self) -> Seq<ReadQueryResult> {
        self.nested@
    }

    /// The scalar-list results.
    pub closed spec fn spec_lists(self) -> Seq<(String, Vec<ScalarListValues>)> {
        self.lists@
    }

    /// The arguments that produced this collection.
    pub closed spec fn spec_query_arguments(self) -> QueryArguments {
        self.query_arguments
    }

    /// The selected-fields descriptor.
    pub closed spec fn spec_selected_fields(self) -> SelectedFields {
        self.selected_fields
    }

    /// The one factory: wraps the already-produced records together with the
    /// nested and list results and the arguments that produced them, setting
    /// every field atomically. Mutual consistency of the inputs (such as each
    /// record's row length against `fields`) is the caller's responsibility;
    /// a mismatch surfaces as an absent identifier at lookup time, never as a
    /// panic.
    pub fn new(
        name: String,
        fields: Vec<String>,
        scalars: ManyRecords,
        nested: Vec<ReadQueryResult>,
        lists: Vec<(String, Vec<ScalarListValues>)>,
        query_arguments: QueryArguments,
        selected_fields: SelectedFields,
    ) -> (r: Self)
        ensures
            r.spec_name() == name@,
            r.spec_fields() == fields@,
            r.spec_scalars() == scalars,
            r.spec_nested() == nested@,
            r.spec_lists() == lists@,
            r.spec_query_arguments() == query_arguments,
            r.spec_selected_fields() == selected_fields,
    {
        Self { name, fields, scalars, nested, lists, query_arguments, selected_fields }
    }

    /// What `find_ids` yields: when a field named `"id"` exists, the
    /// identifiers of all records at its position — but only if every record
    /// has an identifier-typed value there; otherwise, and when no `"id"`
    /// field exists, `None`.
    pub open spec fn spec_find_ids(self) -> Option<Seq<GraphqlId>> {
        match id_position(self.spec_fields()) {
            Some(k) => {
                if forall|i: int|
                    0 <= i < self.spec_scalars().records@.len() ==> record_value_id(
                        #[trigger] self.spec_scalars().records@[i].values@,
                        k,
                    ) is Some {
                    Some(
                        Seq::new(
                            self.spec_scalars().records@.len(),
                            |i: int| record_value_id(self.spec_scalars().records@[i].values@, k).unwrap(),
                        ),
                    )
                } else {
                    None
                }
            },
            None => None,
        }
    }

    /// Gets the identifiers of all records, by the position of the first
    /// field named `"id"`. The outcome is all-or-nothing: one identifier per
    /// record in record order when every record carries one at that position,
    /// and `None` — never a shorter sequence — when the `"id"` field is
    /// missing or any record's value at its position is missing or not
    /// identifier-typed. Failing closed here keeps an identifier-keyed
    /// follow-up query from silently dropping records.
    pub fn find_ids(&self) -> (r: Option<Vec<&GraphqlId>>)
        ensures
            match r {
                Some(ids) => self.spec_find_ids() == Some(
                    ids@.map_values(|id: &GraphqlId| *id),
                ),
                None => self.spec_find_ids() is None,
            },
    {
        let k = match id_field_position(&self.fields) {
            Some(k) => k,
            None => {
                return None;
            },
        };
        let mut out: Vec<&GraphqlId> = Vec::new();
        let mut i: usize = 0;
        while i < self.scalars.records.len()
            invariant
                id_position(self.spec_fields()) == Some(k as int),
                i <= self.spec_scalars().records@.len(),
                out@.len() == i,
                forall|j: int|
                    0 <= j < i ==> record_value_id(
                        #[trigger] self.spec_scalars().records@[j].values@,
                        k as int,
                    ) == Some(*out@[j]),
            decreases self.spec_scalars().records@.len() - i,
        {
            let rec = &self.scalars.records[i];
            if k < rec.values.len() {
                match &rec.values[k] {
                    PrismaValue::GraphqlId(id) => {
                        out.push(id);
                    },
                    _ => {
                        return None;
                    },
                }
            } else {
                return None;
            }
            i = i + 1;
        }
        proof {
            let records = self.spec_scalars().records@;
            assert(self.spec_find_ids() == Some(
                Seq::new(records.len(), |j: int| record_value_id(records[j].values@, k as int).unwrap()),
            ));
            assert(Seq::new(
                records.len(),
                |j: int| record_value_id(records[j].values@, k as int).unwrap(),
            ) =~= out@.map_values(|id: &GraphqlId| *id));
        }
        Some(out)
    }

    /// Read-only access to the query's logical name.
    pub fn name(&self) -> (r: &String)
        ensures
            r@ == self.spec_name(),
    {
        &self.name
    }

    /// Read-only access to the requested field names.
    pub fn fields(&self) -> (r: &Vec<String>)
        ensures
            r@ == self.spec_fields(),
    {
        &self.fields
    }

    /// Read-only access to the matched records.
    pub fn scalars(&self) -> (r: &ManyRecords)
        ensures
            *r == self.spec_scalars(),
    {
        &self.scalars
    }

    /// Read-only access to the nested relation results.
    pub fn nested(&self) -> (r: &Vec<ReadQueryResult>)
        ensures
            r@ == self.spec_nested(),
    {
        &self.nested
    }

    /// Read-only access to the scalar-list results.
    pub fn lists(&self) -> (r: &Vec<(String, Vec<ScalarListValues>)>)
        ensures
            r@ == self.spec_lists(),
    {
        &self.lists
    }

    /// Read-only access to the arguments that produced this collection.
    pub fn query_arguments(&self) -> (r: &QueryArguments)
        ensures
            *r == self.spec_query_arguments(),
    {
        &self.query_arguments
    }

    /// Read-only access to the selected-fields descriptor.
    pub fn selected_fields(&self) -> (r: &SelectedFields)
        ensures
            *r == self.spec_selected_fields(),
    {
        &self.selected_fields
    }
}

/// `id_position_from(fields, i)` is the first position at or after `i` whose
/// field is named `"id"`: a found position lies in range, holds `"id"`, and
/// nothing before it from `i` on does; `None` means no position from `i` on
/// holds `"id"`.
proof fn lemma_id_position_from(fields: Seq<String>, i: nat)
    requires
        i <= fields.len(),
    ensures
        match id_position_from(fields, i) {
            Some(k) => i <= k < fields.len() && fields[k]@ == "id"@ && (forall|j: int|
                i <= j < k ==> fields[j]@ != "id"@),
            None => forall|j: int| i <= j < fields.len() ==> fields[j]@ != "id"@,
        },
    decreases fields.len() - i,
{
    if i < fields.len() && fields[i as int]@ != "id"@ {
        lemma_id_position_from(fields, i + 1);
    }
}

/// `id_position` finds the first `"id"` field: a found position is in range,
/// holds `"id"`, and no earlier position does; `None` means no position does.
pub proof fn lemma_id_position(fields: Seq<String>)
    ensures
        match id_position(fields) {
            Some(k) => 0 <= k < fields.len() && fields[k]@ == "id"@ && (forall|j: int|
                0 <= j < k ==> fields[j]@ != "id"@),
            None => forall|j: int| 0 <= j < fields.len() ==> fields[j]@ != "id"@,
        },
{
    lemma_id_position_from(fields, 0);
}

/// The converse direction: a position that holds `"id"` and is preceded by no
/// other is exactly what `id_position` finds.
pub proof fn lemma_id_position_first(fields: Seq<String>, k: int)
    requires
        0 <= k < fields.len(),
        fields[k]@ == "id"@,
        forall|j: int| 0 <= j < k ==> fields[j]@ != "id"@,
    ensures
        id_position(fields) == Some(k),
{
    lemma_id_position(fields);
    match id_position(fields) {
        Some(p) => {
            if p < k {
                assert(fields[p]@ != "id"@);
            } else if k < p {
                assert(fields[k]@ != "id"@);
            }
        },
        None => {
            assert(fields[k]@ != "id"@);
        },
    }
}

/// When no field of a single result is named `"id"`, `find_id` yields
/// nothing, whether or not a record is present.
pub proof fn lemma_find_id_without_id_field(r: SingleReadQueryResult)
    requires
        forall|j: int| 0 <= j < r.fields@.len() ==> r.fields@[j]@ != "id"@,
    ensures
        r.spec_find_id() is None,
{
    lemma_id_position(r.fields@);
    match id_position(r.fields@) {
        Some(k) => {
            assert(r.fields@[k]@ != "id"@);
        },
        None => {},
    }
}

/// When no record matched, `find_id` yields nothing, whatever the fields.
pub proof fn lemma_find_id_without_record(r: SingleReadQueryResult)
    requires
        r.scalars is None,
    ensures
        r.spec_find_id() is None,
{
}

/// When a record is present and the first field named `"id"` stands at
/// position `k`, `find_id` yields the record's value at `k` exactly when that
/// value is identifier-typed, and nothing otherwise; a row too short to cover
/// `k` also yields nothing.
pub proof fn lemma_find_id_at_position(r: SingleReadQueryResult, k: int)
    requires
        r.scalars is Some,
        0 <= k < r.fields@.len(),
        r.fields@[k]@ == "id"@,
        forall|j: int| 0 <= j < k ==> r.fields@[j]@ != "id"@,
    ensures
        r.spec_find_id() == record_value_id(r.scalars.unwrap().record.values@, k),
{
    lemma_id_position_first(r.fields@, k);
}

/// When no field of a collection result is named `"id"`, `find_ids` yields
/// nothing, whatever the records hold.
pub proof fn lemma_find_ids_without_id_field(m: ManyReadQueryResults)
    requires
        forall|j: int| 0 <= j < m.spec_fields().len() ==> m.spec_fields()[j]@ != "id"@,
    ensures
        m.spec_find_ids() is None,
{
    lemma_id_position(m.spec_fields());
    match id_position(m.spec_fields()) {
        Some(k) => {
            assert(m.spec_fields()[k]@ != "id"@);
        },
        None => {},
    }
}

/// All-or-nothing lookup on a collection whose first field named `"id"`
/// stands at position `k`: when every record holds an identifier-typed value
/// at `k`, `find_ids` yields exactly one identifier per record, in record
/// order; when any record's value at `k` is missing or not identifier-typed,
/// it yields nothing — never a shorter sequence.
pub proof fn lemma_find_ids_at_position(m: ManyReadQueryResults, k: int)
    requires
        0 <= k < m.spec_fields().len(),
        m.spec_fields()[k]@ == "id"@,
        forall|j: int| 0 <= j < k ==> m.spec_fields()[j]@ != "id"@,
    ensures
        (forall|i: int|
            0 <= i < m.spec_scalars().records@.len() ==> record_value_id(
                #[trigger] m.spec_scalars().records@[i].values@,
                k,
            ) is Some) ==> (m.spec_find_ids() matches Some(ids) && ids.len()
            == m.spec_scalars().records@.len() && (forall|i: int|
            0 <= i < ids.len() ==> Some(#[trigger] ids[i]) == record_value_id(
                m.spec_scalars().records@[i].values@,
                k,
            ))),
        (exists|i: int|
            0 <= i < m.spec_scalars().records@.len() && record_value_id(
                #[trigger] m.spec_scalars().records@[i].values@,
                k,
            ) is None) ==> m.spec_find_ids() is None,
{
    lemma_id_position_first(m.spec_fields(), k);
}

} // verus!
