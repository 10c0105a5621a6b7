use event_backend::{
    finish_create, finish_read_all, finish_read_one, finish_update, ApiError, Outcome, Row,
};

#[test]
fn create_succeeds_on_one_written_row() {
    let row = Row::event("e1".to_string(), "Launch".to_string());
    let r = finish_create(row, Outcome::Written(1)).unwrap();
    assert_eq!(r.id, "e1");
    assert_eq!(r.fields, vec!["Launch".to_string()]);
}

#[test]
fn create_fails_on_store_failure() {
    let row = Row::event("e1".to_string(), "Launch".to_string());
    assert_eq!(finish_create(row, Outcome::Failed).unwrap_err(), ApiError::Storage);
    let row = Row::event("e1".to_string(), "Launch".to_string());
    assert_eq!(finish_create(row, Outcome::Written(0)).unwrap_err(), ApiError::Storage);
}

#[test]
fn read_one_maps_empty_answer_to_not_found() {
    assert_eq!(finish_read_one(Outcome::Rows(Vec::new())).unwrap_err(), ApiError::NotFound);
    assert_eq!(finish_read_one(Outcome::Failed).unwrap_err(), ApiError::Storage);
    assert_eq!(finish_read_one(Outcome::Written(1)).unwrap_err(), ApiError::Storage);
}

#[test]
fn read_one_returns_first_row() {
    let rows = vec![
        Row::feature("f1".to_string(), "n".to_string(), "d".to_string()),
        Row::feature("f2".to_string(), "m".to_string(), "e".to_string()),
    ];
    let r = finish_read_one(Outcome::Rows(rows)).unwrap();
    assert_eq!(r.id, "f1");
    assert_eq!(r.fields, vec!["n".to_string(), "d".to_string()]);
}

#[test]
fn read_all_keeps_rows_in_order() {
    let rows = vec![
        Row::event("a".to_string(), "x".to_string()),
        Row::event("b".to_string(), "y".to_string()),
    ];
    let r = finish_read_all(Outcome::Rows(rows)).unwrap();
    let ids: Vec<&str> = r.iter().map(|r| r.id.as_str()).collect();
    assert_eq!(ids, vec!["a", "b"]);
    assert_eq!(finish_read_all(Outcome::Failed).unwrap_err(), ApiError::Storage);
}

#[test]
fn update_maps_untouched_to_not_found() {
    assert_eq!(finish_update(Outcome::Written(1)), Ok(()));
    assert_eq!(finish_update(Outcome::Written(0)), Err(ApiError::NotFound));
    assert_eq!(finish_update(Outcome::Failed), Err(ApiError::Storage));
    assert_eq!(finish_update(Outcome::Rows(Vec::new())), Err(ApiError::Storage));
}

#[test]
fn error_statuses() {
    assert_eq!(ApiError::NotFound.status(), 404);
    assert_eq!(ApiError::Invalid.status(), 400);
    assert_eq!(ApiError::Storage.status(), 500);
}
