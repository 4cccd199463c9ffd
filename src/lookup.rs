use vstd::prelude::*;

verus! {

/// A row as a point lookup hands it back: its key and the size of its payload.
pub struct FetchedRow {
    pub key: String,
    pub payload_len: usize,
}

/// What a lookup reports: the size of the matching record, or that none
/// matched. A store error is reported apart from both.
#[derive(Debug, PartialEq, Eq, Structural)]
pub enum LookupOutcome {
    Found { len: usize },
    NotFound,
}

/// Whether some row of `rows` has key `key`.
pub open spec fn has_key(rows: Seq<FetchedRow>, key: Seq<char>) -> bool {
    exists|i: int| 0 <= i < rows.len() && #[trigger] rows[i].key@ == key
}

/// The position of the first row of `rows` with key `key`, if any.
pub fn first_match(key: &String, rows: &Vec<FetchedRow>) -> (r: Option<usize>)
    ensures
        r is None <==> !has_key(rows@, key@),
        r matches Some(i) ==> i < rows@.len() && rows@[i as int].key@ == key@
            && forall|j: int| 0 <= j < i ==> #[trigger] rows@[j].key@ != key@,
{
    let mut i: usize = 0;
    while i < rows.len()
        invariant
            i <= rows@.len(),
            forall|j: int| 0 <= j < i ==> #[trigger] rows@[j].key@ != key@,
        decreases rows@.len() - i,
    {
        if rows[i].key == *key {
            return Some(i);
        }
        i = i + 1;
    }
    None
}

/// Resolves a lookup for `key` from the rows the store returned, in their
/// order: the first row whose key is `key` decides, and rows with another key
/// are never reported.
pub fn resolve_lookup(key: &String, rows: &Vec<FetchedRow>) -> (r: LookupOutcome)
    ensures
        r is NotFound <==> !has_key(rows@, key@),
        r matches LookupOutcome::Found { len } ==> exists|i: int|
            0 <= i < rows@.len() && #[trigger] rows@[i].key@ == key@
            && rows@[i].payload_len == len
            && forall|j: int| 0 <= j < i ==> #[trigger] rows@[j].key@ != key@,
{
    match first_match(key, rows) {
        Some(i) => LookupOutcome::Found { len: rows[i].payload_len },
        None => LookupOutcome::NotFound,
    }
}

} // verus!
