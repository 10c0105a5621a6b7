use vstd::prelude::*;
use crate::record::{ApiError, RowModel};
use crate::service::{create_model, create_step, read_one_model, update_model};
use crate::table::{has_id, ids_unique, replaced, valid};

verus! {

/// A request to create a record: the id that was generated for it and its
/// fields.
pub open spec fn requested(e: (Seq<char>, Seq<Seq<char>>)) -> RowModel {
    RowModel { id: e.0, fields: e.1 }
}

/// The table after the creates of `batch`, made one after the other.
pub open spec fn create_all(
    rows: Seq<RowModel>,
    width: nat,
    batch: Seq<(Seq<char>, Seq<Seq<char>>)>,
) -> Seq<RowModel>
    decreases batch.len(),
{
    if batch.len() == 0 {
        rows
    } else {
        let last = batch.last();
        create_model(create_all(rows, width, batch.drop_last()), width, last.0, last.1).0
    }
}

proof fn lemma_create_keeps_valid(rows: Seq<RowModel>, width: nat, id: Seq<char>, fields: Seq<Seq<char>>)
    requires
        valid(rows, width),
    ensures
        valid(create_model(rows, width, id, fields).0, width),
{
    if fields.len() == width && !has_id(rows, id) {
        let after = create_model(rows, width, id, fields).0;
        assert forall|i: int, j: int|
            0 <= i < after.len() && 0 <= j < after.len() && i != j implies (#[trigger] after[i]).id
            != (#[trigger] after[j]).id by {
            if i == rows.len() {
                assert(rows[j].id == after[j].id);
            } else if j == rows.len() {
                assert(rows[i].id == after[i].id);
            }
        }
    }
}

/// Whatever ids the creates were handed, ids stay unique: a create never
/// stores a second record under an id that is taken, so no two records that
/// any sequence of creates made share an id.
pub proof fn law_created_ids_distinct(
    rows: Seq<RowModel>,
    width: nat,
    batch: Seq<(Seq<char>, Seq<Seq<char>>)>,
)
    requires
        valid(rows, width),
    ensures
        valid(create_all(rows, width, batch), width),
        ids_unique(create_all(rows, width, batch)),
    decreases batch.len(),
{
    if batch.len() > 0 {
        law_created_ids_distinct(rows, width, batch.drop_last());
        let last = batch.last();
        lemma_create_keeps_valid(create_all(rows, width, batch.drop_last()), width, last.0, last.1);
    }
}

/// A create followed by a lookup of the id it assigned gives back the record
/// that was created: the requested fields under that id.
pub proof fn law_create_then_read(rows: Seq<RowModel>, width: nat, id: Seq<char>, fields: Seq<Seq<char>>)
    requires
        valid(rows, width),
    ensures
        ({
            let (after, r) = create_model(rows, width, id, fields);
            r is Ok ==> r == Ok::<RowModel, ApiError>(RowModel { id, fields })
                && read_one_model(after, id) == r
        }),
{
    let (after, r) = create_model(rows, width, id, fields);
    if r is Ok {
        lemma_create_keeps_valid(rows, width, id, fields);
        let k = rows.len() as int;
        assert(after[k].id == id);
        let i = choose|i: int| 0 <= i < after.len() && (#[trigger] after[i]).id == id;
        assert(has_id(after, id));
        assert(after[i].id == after[k].id);
    }
}

/// After N creates with distinct new ids and fields of the right width, a
/// listing holds exactly the records that were asked for, the N new ones
/// after those that were there.
pub proof fn law_listing_after_creates(
    rows: Seq<RowModel>,
    width: nat,
    batch: Seq<(Seq<char>, Seq<Seq<char>>)>,
)
    requires
        valid(rows, width),
        forall|k: int| 0 <= k < batch.len() ==> (#[trigger] batch[k]).1.len() == width,
        forall|k: int| 0 <= k < batch.len() ==> !has_id(rows, (#[trigger] batch[k]).0),
        forall|k: int, l: int|
            0 <= k < batch.len() && 0 <= l < batch.len() && k != l ==> (#[trigger] batch[k]).0
                != (#[trigger] batch[l]).0,
    ensures
        create_all(rows, width, batch) == rows + batch.map_values(|e| requested(e)),
        create_all(rows, width, batch).len() == rows.len() + batch.len(),
    decreases batch.len(),
{
    if batch.len() > 0 {
        let front = batch.drop_last();
        let last = batch.last();
        assert forall|k: int| 0 <= k < front.len() implies (#[trigger] front[k]).1.len() == width by {
            assert(front[k] == batch[k]);
        }
        assert forall|k: int| 0 <= k < front.len() implies !has_id(rows, (#[trigger] front[k]).0) by {
            assert(front[k] == batch[k]);
        }
        assert forall|k: int, l: int|
            0 <= k < front.len() && 0 <= l < front.len() && k != l implies (#[trigger] front[k]).0
            != (#[trigger] front[l]).0 by {
            assert(front[k] == batch[k]);
            assert(front[l] == batch[l]);
        }
        law_listing_after_creates(rows, width, front);
        let mid = create_all(rows, width, front);
        assert(mid == rows + front.map_values(|e| requested(e)));
        assert(batch[batch.len() - 1] == last);
        assert(!has_id(mid, last.0)) by {
            if has_id(mid, last.0) {
                let i = choose|i: int| 0 <= i < mid.len() && (#[trigger] mid[i]).id == last.0;
                if i < rows.len() {
                    assert(mid[i] == rows[i]);
                    assert(has_id(rows, last.0));
                } else {
                    let k = i - rows.len();
                    assert(mid[i] == requested(front[k]));
                    assert(front[k] == batch[k]);
                }
            }
        }
        assert(create_all(rows, width, batch) =~= rows + batch.map_values(|e| requested(e)));
    }
}

/// The tables seen along N successful creates, `states[0]` before the first
/// and `states[k + 1]` after the create that returned `made[k]` for the fields
/// `fields[k]`, stay valid and grow by exactly the records made.
proof fn lemma_successful_creates_prefix(
    states: Seq<Seq<RowModel>>,
    width: nat,
    fields: Seq<Seq<Seq<char>>>,
    made: Seq<RowModel>,
    n: int,
)
    requires
        states.len() == made.len() + 1,
        fields.len() == made.len(),
        valid(states[0], width),
        forall|k: int|
            0 <= k < made.len() ==> #[trigger] create_step(
                states[k],
                width,
                fields[k],
                states[k + 1],
                made[k],
            ),
        0 <= n <= made.len(),
    ensures
        states[n] == states[0] + made.subrange(0, n),
        valid(states[n], width),
    decreases n,
{
    if n > 0 {
        lemma_successful_creates_prefix(states, width, fields, made, n - 1);
        let k = n - 1;
        assert(create_step(states[k], width, fields[k], states[k + 1], made[k]));
        lemma_create_keeps_valid(states[k], width, made[k].id, fields[k]);
        assert(states[n] =~= states[0] + made.subrange(0, n));
    }
}

/// Along any N successful creates, whatever ids were generated: no two of
/// them returned the same id, each returned the fields it was asked for, and
/// the table after them holds what it held before followed by exactly the N
/// records returned. From an empty table a listing then returns those N
/// records and nothing else.
pub proof fn law_successful_creates(
    states: Seq<Seq<RowModel>>,
    width: nat,
    fields: Seq<Seq<Seq<char>>>,
    made: Seq<RowModel>,
)
    requires
        states.len() == made.len() + 1,
        fields.len() == made.len(),
        valid(states[0], width),
        forall|k: int|
            0 <= k < made.len() ==> #[trigger] create_step(
                states[k],
                width,
                fields[k],
                states[k + 1],
                made[k],
            ),
    ensures
        forall|i: int, j: int|
            0 <= i < made.len() && 0 <= j < made.len() && i != j ==> (#[trigger] made[i]).id
                != (#[trigger] made[j]).id,
        forall|k: int| 0 <= k < made.len() ==> (#[trigger] made[k]).fields == fields[k],
        states.last() == states[0] + made,
        states.last().len() == states[0].len() + made.len(),
        valid(states.last(), width),
{
    lemma_successful_creates_prefix(states, width, fields, made, made.len() as int);
    assert(made.subrange(0, made.len() as int) =~= made);
    assert forall|k: int| 0 <= k < made.len() implies (#[trigger] made[k]).fields == fields[k] by {
        assert(create_step(states[k], width, fields[k], states[k + 1], made[k]));
    }
    assert forall|i: int, j: int|
        0 <= i < made.len() && 0 <= j < made.len() && i != j implies (#[trigger] made[i]).id
        != (#[trigger] made[j]).id by {
        let (a, b) = if i < j { (i, j) } else { (j, i) };
        lemma_successful_creates_prefix(states, width, fields, made, b);
        assert(create_step(states[b], width, fields[b], states[b + 1], made[b]));
        assert(!has_id(states[b], made[b].id));
        let p = states[0].len() + a;
        assert(states[b][p] == made[a]);
        if made[a].id == made[b].id {
            assert(has_id(states[b], made[b].id));
        }
    }
}

/// An update of an existing record with fields of the right width succeeds,
/// gives that record the new fields, and leaves every other record as it
/// was; an update of an id that no record has reports `NotFound` and changes
/// nothing.
pub proof fn law_update_isolated(rows: Seq<RowModel>, width: nat, row: RowModel, other: Seq<char>)
    requires
        valid(rows, width),
        row.fields.len() == width,
    ensures
        ({
            let (after, r) = update_model(rows, width, row);
            &&& has_id(rows, row.id) ==> {
                &&& r == Ok::<(), ApiError>(())
                &&& read_one_model(after, row.id) == Ok::<RowModel, ApiError>(row)
                &&& other != row.id ==> read_one_model(after, other) == read_one_model(rows, other)
                &&& after.len() == rows.len()
            }
            &&& !has_id(rows, row.id) ==> r == Err::<(), ApiError>(ApiError::NotFound) && after == rows
        }),
{
    if has_id(rows, row.id) {
        let after = replaced(rows, row);
        let k = choose|k: int| 0 <= k < rows.len() && (#[trigger] rows[k]).id == row.id;
        assert(after[k] == row);
        assert(ids_unique(after)) by {
            assert forall|i: int, j: int|
                0 <= i < after.len() && 0 <= j < after.len() && i != j implies (#[trigger] after[i]).id
                != (#[trigger] after[j]).id by {
                assert(after[i].id == rows[i].id);
                assert(after[j].id == rows[j].id);
            }
        }
        assert(has_id(after, row.id));
        let i = choose|i: int| 0 <= i < after.len() && (#[trigger] after[i]).id == row.id;
        assert(after[i].id == rows[i].id);
        if other != row.id {
            assert forall|j: int| 0 <= j < rows.len() implies (#[trigger] after[j]).id == other
                <==> rows[j].id == other by {
            }
            if has_id(rows, other) {
                let m = choose|m: int| 0 <= m < rows.len() && (#[trigger] rows[m]).id == other;
                assert(after[m].id == other);
                assert(has_id(after, other));
                let a = choose|a: int| 0 <= a < after.len() && (#[trigger] after[a]).id == other;
                assert(after[a].id == rows[a].id);
            } else {
                if has_id(after, other) {
                    let a = choose|a: int| 0 <= a < after.len() && (#[trigger] after[a]).id == other;
                    assert(rows[a].id == other);
                }
            }
        }
    }
}

/// A lookup of an id that no record has reports `NotFound`.
pub proof fn law_read_missing(rows: Seq<RowModel>, id: Seq<char>)
    requires
        !has_id(rows, id),
    ensures
        read_one_model(rows, id) == Err::<RowModel, ApiError>(ApiError::NotFound),
{
}

} // verus!
