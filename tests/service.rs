use event_backend::{
    create, create_with_id, new_record, read_all, read_one, update, ApiError, Resource, Row, Table,
};
use std::collections::HashSet;

fn texts(v: &[&str]) -> Vec<String> {
    v.iter().map(|s| s.to_string()).collect()
}

#[test]
fn event_round_trip_scenario() {
    let mut events = Table::new(Resource::Events);
    let created = create_with_id(&mut events, "e1".to_string(), texts(&["Launch"])).unwrap();
    assert_eq!(created.id, "e1");
    assert_eq!(created.fields, texts(&["Launch"]));

    let got = read_one(&events, &"e1".to_string()).unwrap();
    assert_eq!(got.id, "e1");
    assert_eq!(got.fields, texts(&["Launch"]));

    assert_eq!(update(&mut events, Row::event("e1".to_string(), "Launch Day".to_string())), Ok(()));
    let got = read_one(&events, &"e1".to_string()).unwrap();
    assert_eq!(got.id, "e1");
    assert_eq!(got.fields, texts(&["Launch Day"]));

    let missing = read_one(&events, &"doesnotexist".to_string()).unwrap_err();
    assert_eq!(missing, ApiError::NotFound);
    assert_eq!(missing.status(), 404);
}

#[test]
fn generated_ids_are_non_empty_and_distinct() {
    let mut events = Table::new(Resource::Events);
    let mut seen = HashSet::new();
    for k in 0..200 {
        let row = create(&mut events, texts(&[&format!("event {}", k)])).unwrap();
        assert!(!row.id.is_empty());
        assert_eq!(row.id.chars().count(), 36);
        assert!(seen.insert(row.id.clone()));
    }
    assert_eq!(events.len(), 200);
}

#[test]
fn create_then_read_returns_the_input() {
    let mut features = Table::new(Resource::Features);
    let row = create(&mut features, texts(&["Search", "Full-text search"])).unwrap();
    let got = read_one(&features, &row.id).unwrap();
    assert_eq!(got.id, row.id);
    assert_eq!(got.fields, texts(&["Search", "Full-text search"]));
}

#[test]
fn listing_after_creates_holds_exactly_those_records() {
    let mut features = Table::new(Resource::Features);
    let mut made = HashSet::new();
    for k in 0..5 {
        let row = create(&mut features, texts(&[&format!("f{}", k), "d"])).unwrap();
        made.insert((row.id, row.fields));
    }
    let all = read_all(&features).unwrap();
    assert_eq!(all.len(), 5);
    let listed: HashSet<(String, Vec<String>)> =
        all.into_iter().map(|r| (r.id, r.fields)).collect();
    assert_eq!(listed, made);
}

#[test]
fn listing_an_empty_table() {
    let events = Table::new(Resource::Events);
    assert!(read_all(&events).unwrap().is_empty());
}

#[test]
fn update_touches_only_its_record() {
    let mut features = Table::new(Resource::Features);
    create_with_id(&mut features, "a".to_string(), texts(&["A", "first"])).unwrap();
    create_with_id(&mut features, "b".to_string(), texts(&["B", "second"])).unwrap();
    let changed = Row::feature("a".to_string(), "A2".to_string(), "changed".to_string());
    assert_eq!(update(&mut features, changed), Ok(()));
    assert_eq!(read_one(&features, &"a".to_string()).unwrap().fields, texts(&["A2", "changed"]));
    assert_eq!(read_one(&features, &"b".to_string()).unwrap().fields, texts(&["B", "second"]));
    assert_eq!(features.len(), 2);
}

#[test]
fn update_of_missing_id_is_not_found() {
    let mut events = Table::new(Resource::Events);
    create_with_id(&mut events, "e1".to_string(), texts(&["Launch"])).unwrap();
    let r = update(&mut events, Row::event("nope".to_string(), "x".to_string()));
    assert_eq!(r, Err(ApiError::NotFound));
    assert_eq!(read_one(&events, &"e1".to_string()).unwrap().fields, texts(&["Launch"]));
    assert_eq!(events.len(), 1);
}

#[test]
fn read_of_missing_id_is_not_found() {
    let events = Table::new(Resource::Events);
    assert_eq!(read_one(&events, &"doesnotexist".to_string()).unwrap_err(), ApiError::NotFound);
}

#[test]
fn taken_id_is_a_storage_error() {
    let mut events = Table::new(Resource::Events);
    create_with_id(&mut events, "e1".to_string(), texts(&["Launch"])).unwrap();
    let r = create_with_id(&mut events, "e1".to_string(), texts(&["Other"]));
    assert_eq!(r.unwrap_err(), ApiError::Storage);
    assert_eq!(read_one(&events, &"e1".to_string()).unwrap().fields, texts(&["Launch"]));
    assert_eq!(events.len(), 1);
}

#[test]
fn wrong_field_count_is_invalid() {
    let mut features = Table::new(Resource::Features);
    assert_eq!(create(&mut features, texts(&["only a name"])).unwrap_err(), ApiError::Invalid);
    assert_eq!(
        update(&mut features, Row::event("x".to_string(), "y".to_string())),
        Err(ApiError::Invalid)
    );
    assert_eq!(features.len(), 0);
    assert_eq!(ApiError::Invalid.status(), 400);
}

#[test]
fn empty_name_is_accepted() {
    let mut events = Table::new(Resource::Events);
    let row = create(&mut events, texts(&[""])).unwrap();
    assert_eq!(read_one(&events, &row.id).unwrap().fields, texts(&[""]));
}

#[test]
fn new_record_generates_an_id() {
    let row = new_record(Resource::Events, texts(&["Launch"])).unwrap();
    assert_eq!(row.id.len(), 36);
    assert_eq!(row.id.matches('-').count(), 4);
    assert_eq!(row.fields, texts(&["Launch"]));
    let other = new_record(Resource::Events, texts(&["Launch"])).unwrap();
    assert_ne!(row.id, other.id);
    assert_eq!(new_record(Resource::Events, texts(&["a", "b"])).unwrap_err(), ApiError::Invalid);
}

#[test]
fn create_on_fresh_table_stores_exactly_that_record() {
    let mut events = Table::new(Resource::Events);
    let row = create(&mut events, texts(&["Launch"])).unwrap();
    assert!(!row.id.is_empty());
    assert_eq!(row.fields, texts(&["Launch"]));
    let all = read_all(&events).unwrap();
    assert_eq!(all.len(), 1);
    assert_eq!(all[0].id, row.id);
    assert_eq!(all[0].fields, texts(&["Launch"]));
}
