//! The hybrid of X25519 and ML-KEM-768, written out for these two KEMs.

use vstd::prelude::*;
use rand_core::CryptoRngCore;
use crate::base::{
    ephemeral_secret_agree, ephemeral_secret_public, ephemeral_secret_random, ml_kem_decapsulate,
    ml_kem_duplicate, ml_kem_encapsulate, ml_kem_encapsulated, ml_kem_encode, ml_kem_encoding,
    ml_kem_generate,
    static_secret_agree, static_secret_public, static_secret_random, BaseKem, MlKem,
    MlKemDecapsulationKey, MlKemDecodedKey, X25519,
};
use crate::combiners::{ChempatPre, Combiner, DhkemPre, KitchenSinkPre, NewPre, SharedSecret};

verus! {

/// The two decapsulation keys, and a copy of the encapsulation key that
/// belongs to them.
pub struct DecapsulationKey {
    pub t: x25519_dalek::StaticSecret,
    pub pq: MlKemDecapsulationKey,
    pub ek: EncapsulationKey,
}

/// The X25519 public key, the ML-KEM key, and the encoding of the latter.
pub struct EncapsulationKey {
    pub t: [u8; 32],
    pub pq: MlKemDecodedKey,
    pub pq_bytes: [u8; 1184],
}

impl EncapsulationKey {
    /// `pq_bytes` is the encoding of `pq`.
    pub open spec fn wf(&self) -> bool {
        self.pq_bytes@ == ml_kem_encoding(self.pq)
    }

    /// Both keys serialize as those of `other` do.
    pub open spec fn same_bytes(&self, other: &Self) -> bool {
        &&& self.t@ == other.t@
        &&& self.pq_bytes@ == other.pq_bytes@
    }
}

impl Clone for EncapsulationKey {
    fn clone(&self) -> (copy: Self)
        ensures
            copy.same_bytes(self),
            self.wf() ==> copy.wf(),
    {
        Self { t: self.t, pq: ml_kem_duplicate(&self.pq), pq_bytes: self.pq_bytes }
    }
}

/// The X25519 ephemeral public key and the ML-KEM ciphertext.
pub struct Ciphertext {
    pub t: [u8; 32],
    pub pq: [u8; 1088],
}

/// Building a precomputing combiner from an encapsulation key of this hybrid.
pub trait NewMlKem: Sized {
    /// Whether this combiner holds what `new_ml_kem` computes from `ek`.
    spec fn seeded_from(&self, ek: &EncapsulationKey) -> bool;

    /// Builds the combiner for the key pair that `ek` belongs to.
    fn new_ml_kem(ek: &EncapsulationKey) -> (c: Self)
        ensures
            c.seeded_from(ek),
    ;
}

impl<T> NewMlKem for T where T: NewPre {
    open spec fn seeded_from(&self, ek: &EncapsulationKey) -> bool {
        self.seeded(ek.t@, ek.pq_bytes@)
    }

    fn new_ml_kem(ek: &EncapsulationKey) -> (c: Self) {
        Self::new_pre(ek.t.as_slice(), ek.pq_bytes.as_slice())
    }
}

impl KitchenSinkPre {
    /// Builds the combiner for the key pair that `ek` belongs to.
    pub fn new(ek: &EncapsulationKey) -> (c: Self)
        ensures
            c.seeded(ek.t@, ek.pq_bytes@),
    {
        Self::new_pre(ek.t.as_slice(), ek.pq_bytes.as_slice())
    }
}

impl ChempatPre {
    /// Builds the combiner for the key pair that `ek` belongs to.
    pub fn new(ek: &EncapsulationKey) -> (c: Self)
        ensures
            c.seeded(ek.t@, ek.pq_bytes@),
    {
        Self::new_pre(ek.t.as_slice(), ek.pq_bytes.as_slice())
    }
}

impl DhkemPre {
    /// Builds the combiner for the key pair that `ek` belongs to.
    pub fn new(ek: &EncapsulationKey) -> (c: Self)
        ensures
            c.seeded(ek.t@, ek.pq_bytes@),
    {
        Self::new_pre(ek.t.as_slice(), ek.pq_bytes.as_slice())
    }
}

/// The secret that an encapsulation under `ek` yields, given the ciphertext
/// and the shared secrets that X25519 and ML-KEM produced.
pub open spec fn encap_secret<C: Combiner>(
    c: &C,
    ek: &EncapsulationKey,
    ct: &Ciphertext,
    ss_t: Seq<u8>,
    ss_pq: Seq<u8>,
) -> Seq<u8> {
    c.combined(ss_t, ct.t@, ek.t@, ss_pq, ct.pq@, ek.pq_bytes@)
}

/// The secret that a decapsulation of `ct` under `dk` yields.
pub open spec fn decap_secret<C: Combiner>(c: &C, dk: &DecapsulationKey, ct: &Ciphertext) -> Seq<
    u8,
> {
    c.combined(
        X25519::decapsulated(&dk.t, ct.t@),
        ct.t@,
        dk.ek.t@,
        MlKem::decapsulated(&dk.pq, ct.pq@),
        ct.pq@,
        dk.ek.pq_bytes@,
    )
}

/// Generates an X25519 and an ML-KEM-768 key pair. The decapsulation key
/// carries a copy of the encapsulation key.
pub fn generate(rng: &mut impl CryptoRngCore) -> (keys: (DecapsulationKey, EncapsulationKey))
    ensures
        X25519::generated(&keys.0.t, keys.1.t@),
        keys.1.wf(),
        keys.0.ek.wf(),
        keys.0.ek.same_bytes(&keys.1),
{
    let dk_t = static_secret_random(rng);
    let ek_t = static_secret_public(&dk_t);

    let (dk_pq, ek_pq) = ml_kem_generate(rng);
    let pq_bytes = ml_kem_encode(&ek_pq);

    let ek = EncapsulationKey { t: ek_t, pq: ek_pq, pq_bytes };
    let dk = DecapsulationKey { t: dk_t, pq: dk_pq, ek: ek.clone() };
    (dk, ek)
}

/// Encapsulates under both keys of `ek` and combines the two shared secrets,
/// the two ciphertexts and the two keys with `c`.
pub fn encap<C: Combiner>(c: &C, rng: &mut impl CryptoRngCore, ek: &EncapsulationKey) -> (out: (
    Ciphertext,
    SharedSecret,
))
    ensures
        (exists|ss_t: Seq<u8>, ss_pq: Seq<u8>|
            X25519::encapsulated(ek.t@, out.0.t@, ss_t) && ss_pq.len() == 32
                && ml_kem_encapsulated(ek.pq, out.0.pq@, ss_pq) && out.1@
                == #[trigger] encap_secret(c, ek, &out.0, ss_t, ss_pq)),
{
    let sk_e = ephemeral_secret_random(rng);
    let ct_t = ephemeral_secret_public(&sk_e);
    let ss_t = ephemeral_secret_agree(sk_e, &ek.t);

    let (ct_pq, ss_pq) = ml_kem_encapsulate(&ek.pq, rng);

    encap_with(c, ek, ct_t, &ss_t, ct_pq, &ss_pq)
}

/// The second half of `encap`: pairs the two ciphertexts and combines the two
/// shared secrets with them and with the keys of `ek`.
pub fn encap_with<C: Combiner>(
    c: &C,
    ek: &EncapsulationKey,
    ct_t: [u8; 32],
    ss_t: &[u8; 32],
    ct_pq: [u8; 1088],
    ss_pq: &[u8; 32],
) -> (out: (Ciphertext, SharedSecret))
    ensures
        out.0.t == ct_t,
        out.0.pq == ct_pq,
        out.1@ == encap_secret(c, ek, &out.0, ss_t@, ss_pq@),
{
    let ct = Ciphertext { t: ct_t, pq: ct_pq };
    let ss = c.combine(
        ss_t.as_slice(),
        ct.t.as_slice(),
        ek.t.as_slice(),
        ss_pq.as_slice(),
        ct.pq.as_slice(),
        ek.pq_bytes.as_slice(),
    );
    (ct, ss)
}

/// Decapsulates both ciphertexts and combines the two recovered secrets, the
/// two ciphertexts and the two keys embedded in `dk` with `c`.
pub fn decap<C: Combiner>(c: &C, dk: &DecapsulationKey, ct: &Ciphertext) -> (ss: SharedSecret)
    ensures
        ss@ == decap_secret(c, dk, ct),
{
    let ss_t = static_secret_agree(&dk.t, &ct.t);
    let ss_pq = ml_kem_decapsulate(&dk.pq, &ct.pq);

    c.combine(
        ss_t.as_slice(),
        ct.t.as_slice(),
        dk.ek.t.as_slice(),
        ss_pq.as_slice(),
        ct.pq.as_slice(),
        dk.ek.pq_bytes.as_slice(),
    )
}

/// Round trip: with one combiner and a decapsulation key that embeds the
/// encapsulation key, decapsulation recovers the secret of an encapsulation
/// whenever X25519 and ML-KEM each recover their own.
pub proof fn lemma_round_trip<C: Combiner>(
    c: &C,
    dk: &DecapsulationKey,
    ek: &EncapsulationKey,
    ct: &Ciphertext,
    ss_t: Seq<u8>,
    ss_pq: Seq<u8>,
)
    requires
        dk.ek.same_bytes(ek),
        X25519::decapsulated(&dk.t, ct.t@) == ss_t,
        MlKem::decapsulated(&dk.pq, ct.pq@) == ss_pq,
    ensures
        decap_secret(c, dk, ct) == encap_secret(c, ek, ct, ss_t, ss_pq),
{
}

} // verus!
