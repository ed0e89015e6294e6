//! Content digests and the novelty test that suppresses duplicates.

use md5::{Digest, Md5};
use vstd::prelude::*;

verus! {

/// The MD5 digest of a byte sequence, as the `md-5` crate computes it.
pub uninterp spec fn md5_of(bytes: Seq<u8>) -> Seq<u8>;

/// Hashes `raw` with `md5::Md5`: one `update` with all the bytes, then
/// `finalize`. Trusted: the sixteen bytes returned are the MD5 digest of
/// `raw`, which depends on the bytes alone.
#[verifier::external_body]
fn md5_bytes(raw: &Vec<u8>) -> (d: [u8; 16])
    ensures
        d@ == md5_of(raw@),
{
    let mut hasher = Md5::new();
    hasher.update(raw.as_slice());
    hasher.finalize().into()
}

/// The digest that stands for "nothing seen yet": sixteen zero bytes.
pub open spec fn blank_digest() -> Seq<u8> {
    Seq::new(16, |i: int| 0u8)
}

/// The 128-bit digest of `raw`.
pub fn digest(raw: &Vec<u8>) -> (d: [u8; 16])
    ensures
        d@ == md5_of(raw@),
{
    md5_bytes(raw)
}

/// Whether a digest differs from the one seen last. Neither value is changed.
pub fn is_novel(digest: &[u8; 16], last_digest: &[u8; 16]) -> (novel: bool)
    ensures
        novel == (digest@ != last_digest@),
{
    let mut i: usize = 0;
    while i < 16
        invariant
            i <= 16,
            forall|k: int| 0 <= k < i ==> digest@[k] == last_digest@[k],
        decreases 16 - i,
    {
        if digest[i] != last_digest[i] {
            return true;
        }
        i += 1;
    }
    assert(digest@ =~= last_digest@);
    false
}

/// Equal inputs have equal digests: the digest is a function of the bytes.
pub proof fn lemma_digest_deterministic(a: Seq<u8>, b: Seq<u8>)
    requires
        a == b,
    ensures
        md5_of(a) == md5_of(b),
{
}

/// Two records whose digests are novel to each other differ in their bytes.
pub proof fn lemma_novel_digests_differ(a: Seq<u8>, b: Seq<u8>)
    requires
        md5_of(a) != md5_of(b),
    ensures
        a != b,
{
}

} // verus!
