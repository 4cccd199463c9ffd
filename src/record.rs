use vstd::prelude::*;
use crate::keys::{decimal, key_text};
use rand::Rng;

verus! {

#[verifier::external_type_specification]
#[verifier::external_body]
pub struct ExRandError(rand::Error);

/// Relies on rand::Rng::try_fill on the thread-local generator: it overwrites
/// the bytes of the slice in place, so the buffer keeps its length, and the
/// block generator behind it always reports success.
#[verifier::external_body]
fn fill_random(buf: &mut Vec<u8>) -> (r: Result<(), rand::Error>)
    ensures
        final(buf)@.len() == old(buf)@.len(),
        r is Ok,
{
    rand::thread_rng().try_fill(buf.as_mut_slice())
}

/// One row of the blob table.
pub struct Record {
    pub key: String,
    pub payload: Vec<u8>,
}

/// A fresh payload of `len` random bytes.
pub fn random_payload(len: usize) -> (p: Vec<u8>)
    ensures
        p@.len() == len,
{
    let mut buf: Vec<u8> = Vec::new();
    let mut i: usize = 0;
    while i < len
        invariant
            i <= len,
            buf@.len() == i,
        decreases len - i,
    {
        buf.push(0u8);
        i = i + 1;
    }
    let filled = fill_random(&mut buf);
    assert(filled is Ok);
    buf
}

/// A new row for key number `key`, holding `len` fresh random bytes.
pub fn make_record(key: u64, len: usize) -> (rec: Record)
    ensures
        rec.key@ == decimal(key as nat),
        rec.payload@.len() == len,
{
    Record { key: key_text(key), payload: random_payload(len) }
}

} // verus!
