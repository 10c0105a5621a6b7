use vstd::prelude::*;
use crate::ident::fresh_id;
use crate::record::{texts, ApiError, Resource, Row, RowModel};
use crate::response::{finish_create, finish_read_all, finish_read_one, finish_update};
use crate::table::{has_id, ids_unique, models, replaced, Table};

verus! {

/// A result, with the record seen as its model.
pub open spec fn result_model(r: Result<Row, ApiError>) -> Result<RowModel, ApiError> {
    match r {
        Ok(row) => Ok(row@),
        Err(e) => Err(e),
    }
}

/// Creating a record with id `id` and fields `fields` in a table of records
/// with `width` fields: the table after, and the response.
pub open spec fn create_model(rows: Seq<RowModel>, width: nat, id: Seq<char>, fields: Seq<Seq<char>>) -> (
    Seq<RowModel>,
    Result<RowModel, ApiError>,
) {
    if fields.len() != width {
        (rows, Err(ApiError::Invalid))
    } else if has_id(rows, id) {
        (rows, Err(ApiError::Storage))
    } else {
        let rec = RowModel { id, fields };
        (rows.push(rec), Ok(rec))
    }
}

/// Looking up the record with id `id`.
pub open spec fn read_one_model(rows: Seq<RowModel>, id: Seq<char>) -> Result<RowModel, ApiError> {
    if has_id(rows, id) {
        let i = choose|i: int| 0 <= i < rows.len() && (#[trigger] rows[i]).id == id;
        Ok(rows[i])
    } else {
        Err(ApiError::NotFound)
    }
}

/// Replacing the fields of the record whose id is that of `row`: the table
/// after, and the response.
pub open spec fn update_model(rows: Seq<RowModel>, width: nat, row: RowModel) -> (
    Seq<RowModel>,
    Result<(), ApiError>,
) {
    if row.fields.len() != width {
        (rows, Err(ApiError::Invalid))
    } else if !has_id(rows, row.id) {
        (rows, Err(ApiError::NotFound))
    } else {
        (replaced(rows, row), Ok(()))
    }
}

proof fn lemma_find_unique(rows: Seq<RowModel>, id: Seq<char>, k: int)
    requires
        ids_unique(rows),
        0 <= k < rows.len(),
        rows[k].id == id,
    ensures
        read_one_model(rows, id) == Ok::<RowModel, ApiError>(rows[k]),
{
    let i = choose|i: int| 0 <= i < rows.len() && (#[trigger] rows[i]).id == id;
    assert(has_id(rows, id));
    assert(rows[i].id == id);
}

/// Creates a record with the given id and fields. The id is the key: one that
/// is taken makes the store refuse the insert, a storage error.
pub fn create_with_id(store: &mut Table, id: String, fields: Vec<String>) -> (r: Result<Row, ApiError>)
    requires
        old(store).wf(),
    ensures
        final(store).wf(),
        final(store).spec_resource() == old(store).spec_resource(),
        (final(store)@, result_model(r)) == create_model(
            old(store)@,
            old(store).spec_resource().spec_width(),
            id@,
            texts(fields@),
        ),
{
    if fields.len() != store.resource().width() {
        return Err(ApiError::Invalid);
    }
    let row = Row::new(id, fields);
    let kept = row.duplicate();
    let outcome = store.insert(row);
    finish_create(kept, outcome)
}

/// A new record of `resource` with the given fields under a newly generated
/// id, 36 characters long; `Invalid` when the field count is not the
/// collection's.
pub fn new_record(resource: Resource, fields: Vec<String>) -> (r: Result<Row, ApiError>)
    ensures
        fields@.len() != resource.spec_width() ==> r == Err::<Row, ApiError>(ApiError::Invalid),
        fields@.len() == resource.spec_width() ==> (r matches Ok(row) && row@.id.len() == 36
            && row@.fields == texts(fields@)),
{
    if fields.len() != resource.width() {
        return Err(ApiError::Invalid);
    }
    Ok(Row::new(fresh_id(), fields))
}

/// `Invalid` when `row` does not carry the field count of `resource`.
pub fn check_width(resource: Resource, row: &Row) -> (r: Result<(), ApiError>)
    ensures
        r is Ok <==> row@.fields.len() == resource.spec_width(),
        r is Err ==> r == Err::<(), ApiError>(ApiError::Invalid),
{
    if row.fields.len() != resource.width() {
        Err(ApiError::Invalid)
    } else {
        Ok(())
    }
}

/// One successful create: on the table `before`, a create with fields
/// `fields` stored the record `rec` under its id and left the table `after`.
pub open spec fn create_step(
    before: Seq<RowModel>,
    width: nat,
    fields: Seq<Seq<char>>,
    after: Seq<RowModel>,
    rec: RowModel,
) -> bool {
    create_model(before, width, rec.id, fields) == (after, Ok::<RowModel, ApiError>(rec))
}

/// Creates a record with the given fields under a newly generated id. The
/// id is 36 characters long and taken by no record before. When no stored id
/// is 36 characters long (an empty table, for one) nothing can collide and
/// the create succeeds; otherwise a generated id that happens to be taken is
/// refused by the store, a storage error.
pub fn create(store: &mut Table, fields: Vec<String>) -> (r: Result<Row, ApiError>)
    requires
        old(store).wf(),
    ensures
        final(store).wf(),
        final(store).spec_resource() == old(store).spec_resource(),
        fields@.len() != old(store).spec_resource().spec_width() ==> r == Err::<Row, ApiError>(
            ApiError::Invalid,
        ) && final(store)@ == old(store)@,
        fields@.len() == old(store).spec_resource().spec_width() && (forall|i: int|
            0 <= i < old(store)@.len() ==> (#[trigger] old(store)@[i]).id.len() != 36) ==> r is Ok,
        fields@.len() == old(store).spec_resource().spec_width() ==> match r {
            Ok(row) => {
                &&& row@.id.len() == 36
                &&& !has_id(old(store)@, row@.id)
                &&& row@.fields == texts(fields@)
                &&& final(store)@ == old(store)@.push(row@)
                &&& create_step(
                    old(store)@,
                    old(store).spec_resource().spec_width(),
                    texts(fields@),
                    final(store)@,
                    row@,
                )
            },
            Err(e) => e == ApiError::Storage && final(store)@ == old(store)@,
        },
{
    if fields.len() != store.resource().width() {
        return Err(ApiError::Invalid);
    }
    let id = fresh_id();
    create_with_id(store, id, fields)
}

/// The record with id `id`, or `NotFound`.
pub fn read_one(store: &Table, id: &String) -> (r: Result<Row, ApiError>)
    requires
        store.wf(),
    ensures
        result_model(r) == read_one_model(store@, id@),
{
    let outcome = store.select_one(id);
    let ghost answer = outcome;
    let r = finish_read_one(outcome);
    proof {
        if has_id(store@, id@) {
            let v = answer->Rows_0;
            let k = choose|k: int| 0 <= k < store@.len() && store@[k] == v@[0]@;
            lemma_find_unique(store@, id@, k);
        }
    }
    r
}

/// Every record, in the order the store holds them.
pub fn read_all(store: &Table) -> (r: Result<Vec<Row>, ApiError>)
    ensures
        r matches Ok(v) && models(v@) == store@,
{
    finish_read_all(store.select_all())
}

/// Replaces the fields of the record whose id is that of `row`; `NotFound`
/// when there is none.
pub fn update(store: &mut Table, row: Row) -> (r: Result<(), ApiError>)
    requires
        old(store).wf(),
    ensures
        final(store).wf(),
        final(store).spec_resource() == old(store).spec_resource(),
        (final(store)@, r) == update_model(old(store)@, old(store).spec_resource().spec_width(), row@),
{
    check_width(store.resource(), &row)?;
    let outcome = store.update(row);
    finish_update(outcome)
}

} // verus!
