use vstd::prelude::*;
use crate::record::{texts, Resource, Row};

verus! {

/// The four operations that the service runs against a collection's table.
#[derive(Clone, Copy, Debug, PartialEq, Eq, Structural)]
pub enum Operation {
    Insert,
    SelectOne,
    SelectAll,
    Update,
}

/// The text of the statement that runs `op` on the table of `resource`.
/// Every select names the columns of its own table, id first.
pub open spec fn sql_text(resource: Resource, op: Operation) -> Seq<char> {
    match (resource, op) {
        (Resource::Events, Operation::Insert) => "INSERT INTO events (id, name) VALUES (?, ?)"@,
        (Resource::Events, Operation::SelectOne) => "SELECT id, name FROM events WHERE id = ?"@,
        (Resource::Events, Operation::SelectAll) => "SELECT id, name FROM events"@,
        (Resource::Events, Operation::Update) => "UPDATE events SET name = ? WHERE id = ?"@,
        (Resource::Features, Operation::Insert) =>
            "INSERT INTO features (id, name, description) VALUES (?, ?, ?)"@,
        (Resource::Features, Operation::SelectOne) =>
            "SELECT id, name, description FROM features WHERE id = ?"@,
        (Resource::Features, Operation::SelectAll) => "SELECT id, name, description FROM features"@,
        (Resource::Features, Operation::Update) =>
            "UPDATE features SET name = ?, description = ? WHERE id = ?"@,
    }
}

/// A parameterised statement and the values bound to its placeholders, in
/// order.
#[derive(Debug)]
pub struct Statement {
    pub sql: String,
    pub binds: Vec<String>,
}

fn sql_for(resource: Resource, op: Operation) -> (r: String)
    ensures
        r@ == sql_text(resource, op),
{
    let text: &str = match (resource, op) {
        (Resource::Events, Operation::Insert) => "INSERT INTO events (id, name) VALUES (?, ?)",
        (Resource::Events, Operation::SelectOne) => "SELECT id, name FROM events WHERE id = ?",
        (Resource::Events, Operation::SelectAll) => "SELECT id, name FROM events",
        (Resource::Events, Operation::Update) => "UPDATE events SET name = ? WHERE id = ?",
        (Resource::Features, Operation::Insert) =>
            "INSERT INTO features (id, name, description) VALUES (?, ?, ?)",
        (Resource::Features, Operation::SelectOne) =>
            "SELECT id, name, description FROM features WHERE id = ?",
        (Resource::Features, Operation::SelectAll) => "SELECT id, name, description FROM features",
        (Resource::Features, Operation::Update) =>
            "UPDATE features SET name = ?, description = ? WHERE id = ?",
    };
    text.to_owned()
}

/// The statement that stores `row`: its id, then its fields in column order.
pub fn insert_statement(resource: Resource, row: &Row) -> (r: Statement)
    ensures
        r.sql@ == sql_text(resource, Operation::Insert),
        texts(r.binds@) == seq![row.id@] + texts(row.fields@),
{
    let mut binds: Vec<String> = Vec::new();
    binds.push(row.id.clone());
    let mut i: usize = 0;
    while i < row.fields.len()
        invariant
            i <= row.fields.len(),
            binds@.len() == i + 1,
            binds@[0]@ == row.id@,
            forall|j: int| 0 <= j < i ==> #[trigger] binds@[j + 1]@ == row.fields@[j]@,
        decreases row.fields.len() - i,
    {
        binds.push(row.fields[i].clone());
        i = i + 1;
    }
    assert forall|k: int| 1 <= k < binds@.len() implies binds@[k]@ == row.fields@[k - 1]@ by {
        assert(binds@[(k - 1) + 1]@ == row.fields@[k - 1]@);
    }
    assert(texts(binds@) =~= seq![row.id@] + texts(row.fields@));
    Statement { sql: sql_for(resource, Operation::Insert), binds }
}

/// The statement that looks up the record with id `id`.
pub fn select_one_statement(resource: Resource, id: &String) -> (r: Statement)
    ensures
        r.sql@ == sql_text(resource, Operation::SelectOne),
        texts(r.binds@) == seq![id@],
{
    let mut binds: Vec<String> = Vec::new();
    binds.push(id.clone());
    assert(texts(binds@) =~= seq![id@]);
    Statement { sql: sql_for(resource, Operation::SelectOne), binds }
}

/// The statement that lists every record.
pub fn select_all_statement(resource: Resource) -> (r: Statement)
    ensures
        r.sql@ == sql_text(resource, Operation::SelectAll),
        r.binds@.len() == 0,
{
    Statement { sql: sql_for(resource, Operation::SelectAll), binds: Vec::new() }
}

/// The statement that overwrites the fields of the record whose id is that of
/// `row`: the fields in column order, then the id.
pub fn update_statement(resource: Resource, row: &Row) -> (r: Statement)
    ensures
        r.sql@ == sql_text(resource, Operation::Update),
        texts(r.binds@) == texts(row.fields@) + seq![row.id@],
{
    let mut binds = crate::record::copy_texts(&row.fields);
    binds.push(row.id.clone());
    assert(texts(binds@) =~= texts(row.fields@) + seq![row.id@]);
    Statement { sql: sql_for(resource, Operation::Update), binds }
}

} // verus!
