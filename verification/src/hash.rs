//! SHA-256.

use sha2::Digest;
use vstd::prelude::*;

verus! {

/// A hash under way: a `sha2::Sha256`, which collects bytes.
#[verifier::external_body]
pub struct Hasher {
    inner: sha2::Sha256,
}

/// The digest of bytes: 32 bytes.
pub uninterp spec fn digest_of(data: Seq<u8>) -> Seq<u8>;

/// The bytes that a hash has taken in.
pub uninterp spec fn absorbed(h: Hasher) -> Seq<u8>;

/// `sha2::Sha256::digest` hashes bytes at once.
#[verifier::external_body]
pub(crate) fn sha256(data: &[u8]) -> (r: [u8; 32])
    ensures
        r@ == digest_of(data@),
{
    sha2::Sha256::digest(data).into()
}

/// `sha2::Sha256::new` begins a hash that has taken in nothing.
#[verifier::external_body]
pub(crate) fn hash_new() -> (r: Hasher)
    ensures
        absorbed(r) == Seq::<u8>::empty(),
{
    Hasher { inner: sha2::Sha256::new() }
}

/// `sha2::Sha256::update` takes in more bytes, after those before.
#[verifier::external_body]
pub(crate) fn hash_update(h: &mut Hasher, data: &[u8])
    ensures
        absorbed(*final(h)) == absorbed(*old(h)) + data@,
{
    h.inner.update(data)
}

/// `sha2::Sha256::finalize` gives the digest of all that was taken in, the
/// same as that of the bytes at once.
#[verifier::external_body]
pub(crate) fn hash_finalize(h: Hasher) -> (r: [u8; 32])
    ensures
        r@ == digest_of(absorbed(h)),
{
    h.inner.finalize().into()
}

} // verus!
