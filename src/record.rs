use vstd::prelude::*;

verus! {

/// The two record collections that the service exposes.
#[derive(Clone, Copy, Debug, PartialEq, Eq, Structural)]
pub enum Resource {
    Events,
    Features,
}

impl Resource {
    /// Number of mutable text fields that a record of this collection carries
    /// besides its id: a name for an event; a name and a description for a
    /// feature.
    pub open spec fn spec_width(self) -> nat {
        match self {
            Resource::Events => 1,
            Resource::Features => 2,
        }
    }

    /// The number of text fields of a record of this collection.
    pub fn width(&self) -> (r: usize)
        ensures
            r == self.spec_width(),
    {
        match self {
            Resource::Events => 1,
            Resource::Features => 2,
        }
    }
}

/// What a stored record is, as mathematics: its id and its text fields in
/// column order.
pub struct RowModel {
    pub id: Seq<char>,
    pub fields: Seq<Seq<char>>,
}

pub open spec fn texts(v: Seq<String>) -> Seq<Seq<char>> {
    v.map_values(|s: String| s@)
}

/// A record of either collection: an id and its text fields in column order
/// (`name` for an event; `name`, `description` for a feature).
#[derive(Debug)]
pub struct Row {
    pub id: String,
    pub fields: Vec<String>,
}

impl View for Row {
    type V = RowModel;

    open spec fn view(&self) -> RowModel {
        RowModel { id: self.id@, fields: texts(self.fields@) }
    }
}

/// Copies a list of texts.
pub fn copy_texts(v: &Vec<String>) -> (r: Vec<String>)
    ensures
        texts(r@) == texts(v@),
{
    let mut r: Vec<String> = Vec::new();
    let mut i: usize = 0;
    while i < v.len()
        invariant
            i <= v.len(),
            r@.len() == i,
            forall|j: int| 0 <= j < i ==> #[trigger] r@[j]@ == v@[j]@,
        decreases v.len() - i,
    {
        r.push(v[i].clone());
        i = i + 1;
    }
    assert(texts(r@) =~= texts(v@));
    r
}

impl Row {
    /// A record from its id and its fields in column order.
    pub fn new(id: String, fields: Vec<String>) -> (r: Row)
        ensures
            r.id == id,
            r.fields == fields,
    {
        Row { id, fields }
    }

    /// A copy of this record.
    pub fn duplicate(&self) -> (r: Row)
        ensures
            r@ == self@,
    {
        Row { id: self.id.clone(), fields: copy_texts(&self.fields) }
    }

    /// An event: its id and its name.
    pub fn event(id: String, name: String) -> (r: Row)
        ensures
            r@.id == id@,
            r@.fields == seq![name@],
    {
        let mut fields: Vec<String> = Vec::new();
        fields.push(name);
        let r = Row { id, fields };
        assert(r@.fields =~= seq![name@]);
        r
    }

    /// A feature: its id, its name and its description.
    pub fn feature(id: String, name: String, description: String) -> (r: Row)
        ensures
            r@.id == id@,
            r@.fields == seq![name@, description@],
    {
        let mut fields: Vec<String> = Vec::new();
        fields.push(name);
        fields.push(description);
        let r = Row { id, fields };
        assert(r@.fields =~= seq![name@, description@]);
        r
    }
}

/// Why an operation did not succeed.
#[derive(Clone, Copy, Debug, PartialEq, Eq, Structural)]
pub enum ApiError {
    /// No record has the requested id.
    NotFound,
    /// The request does not carry the fields that the collection asks for.
    Invalid,
    /// The store failed or answered in a way that the statement cannot give.
    Storage,
}

impl ApiError {
    pub open spec fn spec_status(self) -> u16 {
        match self {
            ApiError::NotFound => 404,
            ApiError::Invalid => 400,
            ApiError::Storage => 500,
        }
    }

    /// The HTTP status that reports this error.
    pub fn status(&self) -> (r: u16)
        ensures
            r == self.spec_status(),
    {
        match self {
            ApiError::NotFound => 404,
            ApiError::Invalid => 400,
            ApiError::Storage => 500,
        }
    }
}

} // verus!
