use vstd::prelude::*;
use crate::record::{copy_texts, Resource, Row, RowModel};
use crate::response::Outcome;

verus! {

/// The records of a sequence of rows, in order.
pub open spec fn models(rows: Seq<Row>) -> Seq<RowModel> {
    rows.map_values(|r: Row| r@)
}

/// Some record in `rows` has id `id`.
pub open spec fn has_id(rows: Seq<RowModel>, id: Seq<char>) -> bool {
    exists|i: int| 0 <= i < rows.len() && (#[trigger] rows[i]).id == id
}

/// No two records in `rows` share an id.
pub open spec fn ids_unique(rows: Seq<RowModel>) -> bool {
    forall|i: int, j: int|
        0 <= i < rows.len() && 0 <= j < rows.len() && i != j ==> (#[trigger] rows[i]).id
            != (#[trigger] rows[j]).id
}

/// `rows` is a valid table of records with `width` fields each: ids unique,
/// every record of the right width.
pub open spec fn valid(rows: Seq<RowModel>, width: nat) -> bool {
    &&& ids_unique(rows)
    &&& forall|i: int| 0 <= i < rows.len() ==> (#[trigger] rows[i]).fields.len() == width
}

/// `rows` with the record whose id is that of `row` replaced by `row`.
pub open spec fn replaced(rows: Seq<RowModel>, row: RowModel) -> Seq<RowModel> {
    rows.map_values(|r: RowModel| if r.id == row.id { row } else { r })
}

/// What the statements of the service do to one table of the store: insert
/// a record under a new key, look one up by id, list them all, overwrite the
/// fields of the one with a given id.
pub struct Table {
    resource: Resource,
    rows: Vec<Row>,
}

impl View for Table {
    type V = Seq<RowModel>;

    closed spec fn view(&self) -> Seq<RowModel> {
        models(self.rows@)
    }
}

impl Table {
    /// The collection whose records this table holds.
    pub closed spec fn spec_resource(&self) -> Resource {
        self.resource
    }

    /// Ids are unique and every record has the collection's field count.
    pub open spec fn wf(&self) -> bool {
        valid(self@, self.spec_resource().spec_width())
    }

    /// An empty table of a collection.
    pub fn new(resource: Resource) -> (r: Table)
        ensures
            r.wf(),
            r@ == Seq::<RowModel>::empty(),
            r.spec_resource() == resource,
    {
        let r = Table { resource, rows: Vec::new() };
        assert(r@ =~= Seq::<RowModel>::empty());
        r
    }

    /// The collection whose records this table holds.
    pub fn resource(&self) -> (r: Resource)
        ensures
            r == self.spec_resource(),
    {
        self.resource
    }

    /// The number of records.
    pub fn len(&self) -> (r: usize)
        ensures
            r == self@.len(),
    {
        self.rows.len()
    }

    /// Position of the record with id `id`, if any.
    fn position(&self, id: &String) -> (r: Option<usize>)
        requires
            self.wf(),
        ensures
            match r {
                Some(i) => i < self@.len() && self@[i as int].id == id@,
                None => !has_id(self@, id@),
            },
    {
        let mut i: usize = 0;
        while i < self.rows.len()
            invariant
                i <= self.rows.len(),
                forall|j: int| 0 <= j < i ==> (#[trigger] self@[j]).id != id@,
            decreases self.rows.len() - i,
        {
            if self.rows[i].id == *id {
                return Some(i);
            }
            i = i + 1;
        }
        None
    }

    /// Inserts `row`. The id is the table's key: an id already present, or a
    /// field count other than the collection's, fails and leaves the table as
    /// it was.
    pub fn insert(&mut self, row: Row) -> (r: Outcome)
        requires
            old(self).wf(),
        ensures
            final(self).wf(),
            final(self).spec_resource() == old(self).spec_resource(),
            !has_id(old(self)@, row@.id) && row@.fields.len() == old(self).spec_resource().spec_width()
                ==> r == Outcome::Written(1) && final(self)@ == old(self)@.push(row@),
            has_id(old(self)@, row@.id) || row@.fields.len() != old(self).spec_resource().spec_width()
                ==> r == Outcome::Failed && final(self)@ == old(self)@,
    {
        if row.fields.len() != self.resource.width() {
            return Outcome::Failed;
        }
        match self.position(&row.id) {
            Some(_) => Outcome::Failed,
            None => {
                proof {
                    let ghost v = row@;
                    assert(models(self.rows@.push(row)) =~= self@.push(v));
                }
                self.rows.push(row);
                Outcome::Written(1)
            },
        }
    }

    /// The records with id `id`: the one that has it, or none.
    pub fn select_one(&self, id: &String) -> (r: Outcome)
        requires
            self.wf(),
        ensures
            r matches Outcome::Rows(v) && (if has_id(self@, id@) {
                v@.len() == 1 && v@[0]@.id == id@ && self@.contains(v@[0]@)
            } else {
                v@.len() == 0
            }),
    {
        let mut v: Vec<Row> = Vec::new();
        match self.position(id) {
            Some(i) => {
                v.push(self.rows[i].duplicate());
                assert(self@[i as int] == self.rows@[i as int]@);
            },
            None => {},
        }
        Outcome::Rows(v)
    }

    /// Every record, in the order of insertion.
    pub fn select_all(&self) -> (r: Outcome)
        ensures
            r matches Outcome::Rows(v) && models(v@) == self@,
    {
        let mut v: Vec<Row> = Vec::new();
        let mut i: usize = 0;
        while i < self.rows.len()
            invariant
                i <= self.rows.len(),
                v@.len() == i,
                forall|j: int| 0 <= j < i ==> #[trigger] v@[j]@ == self.rows@[j]@,
            decreases self.rows.len() - i,
        {
            v.push(self.rows[i].duplicate());
            i = i + 1;
        }
        assert(models(v@) =~= self@);
        Outcome::Rows(v)
    }

    /// Overwrites the fields of the record whose id is that of `row`. Touches
    /// one row when there is such a record, none when there is not; a field
    /// count other than the collection's fails.
    pub fn update(&mut self, row: Row) -> (r: Outcome)
        requires
            old(self).wf(),
        ensures
            final(self).wf(),
            final(self).spec_resource() == old(self).spec_resource(),
            row@.fields.len() != old(self).spec_resource().spec_width() ==> r == Outcome::Failed
                && final(self)@ == old(self)@,
            row@.fields.len() == old(self).spec_resource().spec_width() ==> {
                &&& final(self)@ == replaced(old(self)@, row@)
                &&& has_id(old(self)@, row@.id) ==> r == Outcome::Written(1)
                &&& !has_id(old(self)@, row@.id) ==> r == Outcome::Written(0)
            },
    {
        if row.fields.len() != self.resource.width() {
            return Outcome::Failed;
        }
        match self.position(&row.id) {
            None => {
                assert(replaced(self@, row@) =~= self@);
                Outcome::Written(0)
            },
            Some(i) => {
                let ghost before = self@;
                let ghost v = row@;
                self.rows.set(i, row);
                assert forall|j: int| 0 <= j < before.len() implies #[trigger] self@[j] == replaced(before, v)[j] by {
                    if j != i {
                        assert(before[j].id != before[i as int].id);
                    }
                }
                assert(self@ =~= replaced(before, v));
                Outcome::Written(1)
            },
        }
    }
}

} // verus!
