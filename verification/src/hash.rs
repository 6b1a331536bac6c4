//! The one primitive of every combiner: SHA3-256, absorbed piece by piece.
//!
//! The digest itself is computed by the `sha3` crate and is not verified here.
//! This module states what the rest of the library relies on: a hasher holds
//! the bytes it was fed, in order, and finalizing it yields the digest of
//! exactly those bytes.

use vstd::prelude::*;
use sha3::Digest;

verus! {

/// The SHA3-256 digest of `data`.
pub uninterp spec fn sha3_256(data: Seq<u8>) -> Seq<u8>;

/// The bytes that `h` has absorbed since it was created or last reset.
pub uninterp spec fn absorbed(h: Hasher) -> Seq<u8>;

/// A running SHA3-256 computation.
///
/// Holds the `sha3` crate's hasher, whose generic wrapper type cannot be
/// described to the verifier; its state is therefore opaque, and `absorbed`
/// stands for its contents.
#[verifier::external_body]
pub struct Hasher {
    state: sha3::Sha3_256,
}

impl Hasher {
    /// `Sha3_256::new`: a fresh hasher has absorbed nothing.
    #[verifier::external_body]
    pub(crate) fn new() -> (h: Self)
        ensures
            absorbed(h) == Seq::<u8>::empty(),
    {
        Hasher { state: sha3::Sha3_256::new() }
    }

    /// `Digest::update`: the hasher absorbs `data` after what it already holds.
    #[verifier::external_body]
    pub(crate) fn update(&mut self, data: &[u8])
        ensures
            absorbed(*final(self)) == absorbed(*old(self)) + data@,
    {
        self.state.update(data)
    }

    /// `Digest::finalize`: the 32-byte digest of everything absorbed.
    #[verifier::external_body]
    pub(crate) fn finalize(self) -> (digest: [u8; 32])
        ensures
            digest@ == sha3_256(absorbed(self)),
    {
        self.state.finalize().into()
    }

    /// `Digest::finalize_reset`: the 32-byte digest of everything absorbed;
    /// afterwards the hasher is as good as new.
    #[verifier::external_body]
    pub(crate) fn finalize_reset(&mut self) -> (digest: [u8; 32])
        ensures
            digest@ == sha3_256(absorbed(*old(self))),
            absorbed(*final(self)) == Seq::<u8>::empty(),
    {
        self.state.finalize_reset().into()
    }

    /// `Clone::clone` of the hasher: the copy has absorbed the same bytes, and
    /// the one it was taken from is untouched.
    #[verifier::external_body]
    pub(crate) fn snapshot(&self) -> (copy: Self)
        ensures
            absorbed(copy) == absorbed(*self),
    {
        Hasher { state: self.state.clone() }
    }
}

} // verus!
