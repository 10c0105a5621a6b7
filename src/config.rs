use vstd::prelude::*;

verus! {

/// The scheme that marks a connection string as naming a database file.
pub open spec fn file_scheme() -> Seq<char> {
    seq!['s', 'q', 'l', 'i', 't', 'e', ':']
}

/// `url` starts with the `sqlite:` scheme.
pub open spec fn names_file(url: Seq<char>) -> bool {
    url.len() >= file_scheme().len() && url.subrange(0, file_scheme().len() as int) == file_scheme()
}

/// The path of the database file that a connection string names: what
/// follows the `sqlite:` scheme. A connection string of another scheme names
/// no file, and the store then needs no file to be made before it connects.
pub fn database_file(url: &str) -> (r: Option<String>)
    ensures
        match r {
            Some(p) => names_file(url@) && p@ == url@.subrange(
                file_scheme().len() as int,
                url@.len() as int,
            ),
            None => !names_file(url@),
        },
{
    let scheme: Vec<char> = vec!['s', 'q', 'l', 'i', 't', 'e', ':'];
    assert(scheme@ =~= file_scheme());
    let n = url.unicode_len();
    if n < scheme.len() {
        return None;
    }
    let mut i: usize = 0;
    while i < scheme.len()
        invariant
            scheme@ == file_scheme(),
            n == url@.len(),
            scheme.len() <= n,
            i <= scheme.len(),
            url@.subrange(0, i as int) == scheme@.subrange(0, i as int),
        decreases scheme.len() - i,
    {
        if url.get_char(i) != scheme[i] {
            assert(url@.subrange(0, scheme.len() as int)[i as int] != file_scheme()[i as int]);
            return None;
        }
        i = i + 1;
        assert(url@.subrange(0, i as int) =~= scheme@.subrange(0, i as int));
    }
    assert(scheme@.subrange(0, scheme.len() as int) =~= scheme@);
    Some(url.substring_char(scheme.len(), n).to_owned())
}

} // verus!
