use event_backend::{
    database_file, insert_statement, select_all_statement, select_one_statement,
    update_statement, Resource, Row,
};

#[test]
fn event_statements() {
    let row = Row::event("e1".to_string(), "Launch".to_string());
    let s = insert_statement(Resource::Events, &row);
    assert_eq!(s.sql, "INSERT INTO events (id, name) VALUES (?, ?)");
    assert_eq!(s.binds, vec!["e1".to_string(), "Launch".to_string()]);

    let s = select_one_statement(Resource::Events, &"e1".to_string());
    assert_eq!(s.sql, "SELECT id, name FROM events WHERE id = ?");
    assert_eq!(s.binds, vec!["e1".to_string()]);

    let s = select_all_statement(Resource::Events);
    assert_eq!(s.sql, "SELECT id, name FROM events");
    assert!(s.binds.is_empty());

    let s = update_statement(Resource::Events, &row);
    assert_eq!(s.sql, "UPDATE events SET name = ? WHERE id = ?");
    assert_eq!(s.binds, vec!["Launch".to_string(), "e1".to_string()]);
}

#[test]
fn feature_statements() {
    let row = Row::feature("f1".to_string(), "Search".to_string(), "Find things".to_string());
    let s = insert_statement(Resource::Features, &row);
    assert_eq!(s.sql, "INSERT INTO features (id, name, description) VALUES (?, ?, ?)");
    assert_eq!(s.binds, vec!["f1".to_string(), "Search".to_string(), "Find things".to_string()]);

    let s = select_one_statement(Resource::Features, &"f1".to_string());
    assert_eq!(s.sql, "SELECT id, name, description FROM features WHERE id = ?");

    let s = update_statement(Resource::Features, &row);
    assert_eq!(s.sql, "UPDATE features SET name = ?, description = ? WHERE id = ?");
    assert_eq!(s.binds, vec!["Search".to_string(), "Find things".to_string(), "f1".to_string()]);
}

#[test]
fn feature_listing_reads_the_features_table() {
    let s = select_all_statement(Resource::Features);
    assert_eq!(s.sql, "SELECT id, name, description FROM features");
}

#[test]
fn database_file_of_sqlite_url() {
    assert_eq!(database_file("sqlite:data/app.db"), Some("data/app.db".to_string()));
    assert_eq!(database_file("sqlite:"), Some(String::new()));
}

#[test]
fn database_file_of_other_urls() {
    assert_eq!(database_file("postgres://localhost/app"), None);
    assert_eq!(database_file("sqlit"), None);
    assert_eq!(database_file(""), None);
    assert_eq!(database_file("SQLITE:x.db"), None);
}
