//! Hybrid key encapsulation: two independent KEMs, one classical and one
//! post-quantum, bound into a single 32-byte shared secret by a combiner, so
//! that the secret stays safe as long as one of the two KEMs does.
//!
//! - [`combiners`]: the combiner algorithms, each with the formula it computes
//!   as its contract, and the precomputing variants with the proof that they
//!   compute the same.
//! - [`hybrid`]: the composition of any two base KEMs through a combiner.
//! - [`ml_kem`]: the same composition written out for X25519 and ML-KEM-768.
//! - [`base`]: the interface of a base KEM, and X25519, ML-KEM-768 and
//!   Classic McEliece behind it.
//! - [`hash`]: SHA3-256, the one primitive of the combiners.
//!
//! The hash function and the base KEMs are computed by other crates. What this
//! library assumes of them is written down where they are called, and nothing
//! else is assumed.

pub mod hash;
pub mod combiners;
pub mod base;
pub mod hybrid;
pub mod ml_kem;

pub use crate::combiners::{
    Chempat, ChempatPre, Combiner, Dhkem, DhkemHalf, DhkemPre, KitchenSink, KitchenSinkPre,
    SharedSecret, XWing,
};
pub use crate::ml_kem::{decap, encap, generate, Ciphertext, DecapsulationKey, EncapsulationKey};
