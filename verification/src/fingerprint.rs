//! Fingerprints of file content.

use vstd::prelude::*;
use std::hash::Hasher;

verus! {

/// The digest that a fresh `fxhash::FxHasher` gives after one `write` of
/// `bytes`.
pub uninterp spec fn fx_hash(bytes: Seq<u8>) -> u64;

/// Feeds `bytes` in one `write` to `fxhash::FxHasher::default()` and returns
/// its `finish`. The hasher starts from a fixed state, so the digest depends
/// on the bytes alone.
#[verifier::external_body]
fn fx_hash_bytes(bytes: &[u8]) -> (h: u64)
    ensures
        h == fx_hash(bytes@),
{
    let mut hasher = fxhash::FxHasher::default();
    hasher.write(bytes);
    hasher.finish()
}

/// The fingerprint of a file's whole content.
pub fn fingerprint(bytes: &[u8]) -> (h: u64)
    ensures
        h == fx_hash(bytes@),
{
    fx_hash_bytes(bytes)
}

/// Whether two contents count as the same: their fingerprints are equal.
pub open spec fn alike(ours: Seq<u8>, theirs: Seq<u8>) -> bool {
    fx_hash(ours) == fx_hash(theirs)
}

/// Contents with the same bytes are alike, and contents that are not alike
/// differ in their bytes. The converse does not hold: two different contents
/// may share a fingerprint.
pub proof fn equal_bytes_are_alike(ours: Seq<u8>, theirs: Seq<u8>)
    ensures
        ours == theirs ==> alike(ours, theirs),
        !alike(ours, theirs) ==> ours != theirs,
{
}

} // verus!
