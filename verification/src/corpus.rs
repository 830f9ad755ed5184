//! The seed corpus: the byte buffer a mutation run starts from.
//!
//! When no corpus has been persisted yet, a fixed default literal is the
//! canonical first-run corpus.  The loader that reads and writes the
//! corpus file lives outside the library; it hands in the persisted
//! bytes, or `None` when there were none.

use vstd::prelude::*;

verus! {

/// The fixed default corpus, the bytes of `"InitialSeedData"`.
pub open spec fn default_corpus_spec() -> Seq<u8> {
    seq![73u8, 110u8, 105u8, 116u8, 105u8, 97u8, 108u8, 83u8, 101u8, 101u8, 100u8, 68u8, 97u8, 116u8, 97u8]
}

/// The default corpus as a fresh buffer, used when no corpus exists yet.
pub fn default_corpus() -> (r: Vec<u8>)
    ensures
        r@ == default_corpus_spec(),
{
    let mut v: Vec<u8> = Vec::new();
    v.push(73u8);
    v.push(110u8);
    v.push(105u8);
    v.push(116u8);
    v.push(105u8);
    v.push(97u8);
    v.push(108u8);
    v.push(83u8);
    v.push(101u8);
    v.push(101u8);
    v.push(100u8);
    v.push(68u8);
    v.push(97u8);
    v.push(116u8);
    v.push(97u8);
    proof {
        assert(v@ =~= default_corpus_spec());
    }
    v
}

/// Chooses the buffer a run starts from: the persisted corpus bytes if
/// any exist, and the fixed default otherwise.
pub fn initial_corpus(existing: Option<Vec<u8>>) -> (r: Vec<u8>)
    ensures
        (existing matches Some(b) ==> r@ == b@),
        existing is None ==> r@ == default_corpus_spec(),
{
    match existing {
        Some(b) => b,
        None => default_corpus(),
    }
}

} // verus!
