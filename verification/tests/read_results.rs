use read_result_ast::GraphqlId;
use read_result_ast::ManyReadQueryResults;
use read_result_ast::ManyRecords;
use read_result_ast::PrismaValue;
use read_result_ast::QueryArguments;
use read_result_ast::ReadQueryResult;
use read_result_ast::Record;
use read_result_ast::ScalarListValues;
use read_result_ast::SelectedField;
use read_result_ast::SelectedFields;
use read_result_ast::SingleReadQueryResult;
use read_result_ast::SingleRecord;

fn names(raw: &[&str]) -> Vec<String> {
    raw.iter().map(|s| s.to_string()).collect()
}

fn no_selection() -> SelectedFields {
    SelectedFields { elements: vec![] }
}

fn single_result(
    fields: Vec<String>,
    scalars: Option<SingleRecord>,
) -> SingleReadQueryResult {
    SingleReadQueryResult {
        name: "single_query".to_string(),
        fields,
        scalars,
        nested: vec![],
        lists: vec![],
        selected_fields: no_selection(),
    }
}

fn record(values: Vec<PrismaValue>) -> Record {
    Record { values, parent_id: None }
}

fn many_result(fields: Vec<String>, records: Vec<Record>) -> ManyReadQueryResults {
    ManyReadQueryResults::new(
        "many_query".to_string(),
        fields,
        ManyRecords { records },
        vec![],
        vec![],
        QueryArguments::empty(),
        no_selection(),
    )
}

#[test]
fn find_id_returns_identifier_at_id_position() {
    let id = GraphqlId::Text("abc".to_string());
    let r = single_result(
        names(&["id", "name"]),
        Some(SingleRecord {
            record: record(vec![
                PrismaValue::GraphqlId(id.clone()),
                PrismaValue::Text("Alice".to_string()),
            ]),
        }),
    );
    assert_eq!(r.find_id(), Some(&id));
}

#[test]
fn find_id_absent_without_id_field() {
    let r = single_result(
        names(&["name"]),
        Some(SingleRecord {
            record: record(vec![PrismaValue::Text("Alice".to_string())]),
        }),
    );
    assert_eq!(r.find_id(), None);
}

#[test]
fn find_id_absent_without_record() {
    let r = single_result(names(&["id", "name"]), None);
    assert_eq!(r.find_id(), None);
}

#[test]
fn find_id_absent_when_value_not_identifier() {
    let r = single_result(
        names(&["id"]),
        Some(SingleRecord {
            record: record(vec![PrismaValue::Text("not-an-id".to_string())]),
        }),
    );
    assert_eq!(r.find_id(), None);
}

#[test]
fn find_id_absent_when_row_shorter_than_id_position() {
    let r = single_result(
        names(&["name", "id"]),
        Some(SingleRecord {
            record: record(vec![PrismaValue::Text("Alice".to_string())]),
        }),
    );
    assert_eq!(r.find_id(), None);
}

#[test]
fn find_id_uses_first_id_field_only() {
    let id = GraphqlId::Text("late".to_string());
    let r = single_result(
        names(&["id", "id"]),
        Some(SingleRecord {
            record: record(vec![
                PrismaValue::Text("first-position-wins".to_string()),
                PrismaValue::GraphqlId(id),
            ]),
        }),
    );
    assert_eq!(r.find_id(), None);
}

#[test]
fn find_id_with_numeric_identifier() {
    let id = GraphqlId::Int(42);
    let r = single_result(
        names(&["id"]),
        Some(SingleRecord {
            record: record(vec![PrismaValue::GraphqlId(id.clone())]),
        }),
    );
    assert_eq!(r.find_id(), Some(&id));
}

#[test]
fn parent_id_reads_the_parent_link_slot() {
    let parent = GraphqlId::Text("parent".to_string());
    let r = single_result(
        names(&["name"]),
        Some(SingleRecord {
            record: Record {
                values: vec![PrismaValue::Text("Alice".to_string())],
                parent_id: Some(parent.clone()),
            },
        }),
    );
    assert_eq!(r.parent_id(), Some(&parent));
}

#[test]
fn parent_id_absent_without_record() {
    let r = single_result(names(&["name"]), None);
    assert_eq!(r.parent_id(), None);
}

#[test]
fn parent_id_absent_without_parent_link() {
    let r = single_result(
        names(&["name"]),
        Some(SingleRecord {
            record: record(vec![PrismaValue::Text("Alice".to_string())]),
        }),
    );
    assert_eq!(r.parent_id(), None);
}

#[test]
fn find_ids_returns_all_identifiers_in_record_order() {
    let a = GraphqlId::Text("a".to_string());
    let b = GraphqlId::Text("b".to_string());
    let m = many_result(
        names(&["id"]),
        vec![
            record(vec![PrismaValue::GraphqlId(a.clone())]),
            record(vec![PrismaValue::GraphqlId(b.clone())]),
        ],
    );
    assert_eq!(m.find_ids(), Some(vec![&a, &b]));
}

#[test]
fn find_ids_absent_when_any_record_lacks_identifier() {
    let a = GraphqlId::Text("a".to_string());
    let m = many_result(
        names(&["id"]),
        vec![
            record(vec![PrismaValue::GraphqlId(a)]),
            record(vec![PrismaValue::Text("b".to_string())]),
        ],
    );
    assert_eq!(m.find_ids(), None);
}

#[test]
fn find_ids_absent_without_id_field() {
    let m = many_result(
        names(&["name"]),
        vec![record(vec![PrismaValue::Text("Alice".to_string())])],
    );
    assert_eq!(m.find_ids(), None);
}

#[test]
fn find_ids_empty_collection_yields_empty_sequence() {
    let m = many_result(names(&["id"]), vec![]);
    assert_eq!(m.find_ids(), Some(vec![]));
}

#[test]
fn find_ids_absent_when_a_row_is_too_short() {
    let a = GraphqlId::Text("a".to_string());
    let m = many_result(
        names(&["name", "id"]),
        vec![
            record(vec![
                PrismaValue::Text("Alice".to_string()),
                PrismaValue::GraphqlId(a),
            ]),
            record(vec![PrismaValue::Text("Bob".to_string())]),
        ],
    );
    assert_eq!(m.find_ids(), None);
}

#[test]
fn find_ids_at_later_position() {
    let a = GraphqlId::Int(1);
    let b = GraphqlId::Int(2);
    let m = many_result(
        names(&["name", "id"]),
        vec![
            record(vec![
                PrismaValue::Text("Alice".to_string()),
                PrismaValue::GraphqlId(a.clone()),
            ]),
            record(vec![
                PrismaValue::Text("Bob".to_string()),
                PrismaValue::GraphqlId(b.clone()),
            ]),
        ],
    );
    assert_eq!(m.find_ids(), Some(vec![&a, &b]));
}

#[test]
fn name_dispatches_to_single_variant() {
    let r = ReadQueryResult::Single(single_result(names(&["name"]), None));
    assert_eq!(r.name(), "single_query".to_string());
}

#[test]
fn name_dispatches_to_many_variant() {
    let r = ReadQueryResult::Many(many_result(names(&["id"]), vec![]));
    assert_eq!(r.name(), "many_query".to_string());
}

#[test]
fn factory_retains_every_input() {
    let args = QueryArguments {
        skip: Some(2),
        after: Some(GraphqlId::Text("cursor".to_string())),
        first: Some(10),
        before: None,
        last: None,
    };
    let selection = SelectedFields {
        elements: vec![
            SelectedField { name: "name".to_string(), implicit: false },
            SelectedField { name: "id".to_string(), implicit: true },
        ],
    };
    let lists = vec![(
        "tags".to_string(),
        vec![ScalarListValues {
            record_id: GraphqlId::Int(7),
            values: vec![PrismaValue::Text("tag".to_string())],
        }],
    )];
    let nested = vec![ReadQueryResult::Single(single_result(names(&["name"]), None))];
    let records = vec![record(vec![PrismaValue::Text("Alice".to_string())])];
    let m = ManyReadQueryResults::new(
        "users".to_string(),
        names(&["name"]),
        ManyRecords { records: records.clone() },
        nested,
        lists.clone(),
        args.clone(),
        selection.clone(),
    );
    assert_eq!(m.name(), &"users".to_string());
    assert_eq!(m.fields(), &names(&["name"]));
    assert_eq!(m.scalars(), &ManyRecords { records });
    assert_eq!(m.nested().len(), 1);
    assert!(matches!(m.nested()[0], ReadQueryResult::Single(_)));
    assert_eq!(m.lists(), &lists);
    assert_eq!(m.query_arguments(), &args);
    assert_eq!(m.selected_fields(), &selection);
}

#[test]
fn empty_query_arguments_hold_nothing() {
    let args = QueryArguments::empty();
    assert_eq!(args.skip, None);
    assert_eq!(args.after, None);
    assert_eq!(args.first, None);
    assert_eq!(args.before, None);
    assert_eq!(args.last, None);
}
