//! The running SHA-256 sum of the bytes of a download.

use sha2::Digest;
use vstd::prelude::*;

verus! {

/// A SHA-256 sum in the making: the hasher of the `sha2` crate, which takes
/// the bytes piece by piece.
#[verifier::external_body]
pub struct Sha256Sum {
    inner: sha2::Sha256,
}

/// The SHA-256 sum of `data`, as the `sha2` crate computes it.
pub uninterp spec fn sha256(data: Seq<u8>) -> Seq<u8>;

/// The bytes that `sum` was given so far, in the order in which they came.
pub uninterp spec fn absorbed(sum: Sha256Sum) -> Seq<u8>;

/// Makes the hasher with `Digest::new` of `sha2::Sha256`: a hasher that was
/// given no bytes yet.
#[verifier::external_body]
pub(crate) fn start() -> (sum: Sha256Sum)
    ensures
        absorbed(sum) == Seq::<u8>::empty(),
{
    Sha256Sum { inner: sha2::Sha256::new() }
}

/// Hands `chunk` to `Digest::update`, which processes it behind the bytes
/// that the hasher was given before.
#[verifier::external_body]
pub(crate) fn absorb(sum: &mut Sha256Sum, chunk: &[u8])
    ensures
        absorbed(*final(sum)) == absorbed(*old(sum)) + chunk@,
{
    sum.inner.update(chunk);
}

/// Ends the hasher with `Digest::finalize`: the result is the SHA-256 sum of
/// all the bytes that the hasher was given, as if they had come in one piece.
#[verifier::external_body]
pub(crate) fn finish(sum: Sha256Sum) -> (hash: Vec<u8>)
    ensures
        hash@ == sha256(absorbed(sum)),
{
    sum.inner.finalize().to_vec()
}

} // verus!
