//! The hybrid KEM: any two base KEMs run side by side, their outputs bound
//! into one shared secret by a combiner chosen at each call.

use vstd::prelude::*;
use rand_core::CryptoRngCore;
use crate::base::{AsBytes, BaseKem};
use crate::combiners::{Combiner, NewPre};
pub use crate::combiners::SharedSecret;

verus! {

/// The two decapsulation keys of a hybrid key pair, and a copy of the
/// encapsulation key that belongs to them: combiners bind the secret to it, so
/// the decapsulating side needs it too.
pub struct DecapsulationKey<T, PQ> where T: BaseKem, PQ: BaseKem {
    pub t: T::DecapsulationKey,
    pub pq: PQ::DecapsulationKey,
    pub ek: EncapsulationKey<T, PQ>,
}

/// The two encapsulation keys of a hybrid key pair.
pub struct EncapsulationKey<T, PQ> where T: BaseKem, PQ: BaseKem {
    pub t: T::EncapsulationKey,
    pub pq: PQ::EncapsulationKey,
}

impl<T, PQ> Clone for EncapsulationKey<T, PQ> where T: BaseKem, PQ: BaseKem {
    fn clone(&self) -> (copy: Self)
        ensures
            copy.same_bytes(self),
    {
        let t = self.t.clone();
        let pq = self.pq.clone();
        proof {
            T::lemma_clone_keeps_bytes(&self.t, &t);
            PQ::lemma_clone_keeps_bytes(&self.pq, &pq);
        }
        Self { t, pq }
    }
}

impl<T, PQ> EncapsulationKey<T, PQ> where T: BaseKem, PQ: BaseKem {
    /// Both keys serialize as those of `other` do.
    pub open spec fn same_bytes(&self, other: &Self) -> bool {
        &&& self.t.bytes() == other.t.bytes()
        &&& self.pq.bytes() == other.pq.bytes()
    }
}

impl<T, PQ> DecapsulationKey<T, PQ> where T: BaseKem, PQ: BaseKem {
    /// The embedded encapsulation key is `ek`, byte for byte.
    pub open spec fn embeds(&self, ek: &EncapsulationKey<T, PQ>) -> bool {
        self.ek.same_bytes(ek)
    }
}

/// The two ciphertexts of one hybrid encapsulation.
pub struct Ciphertext<T, PQ> where T: BaseKem, PQ: BaseKem {
    pub t: T::Ciphertext,
    pub pq: PQ::Ciphertext,
}

/// Building a precomputing combiner from a hybrid encapsulation key.
pub trait NewHybrid<T, PQ>: Sized where T: BaseKem, PQ: BaseKem {
    /// Whether this combiner holds what `new_hybrid` computes from `ek`.
    spec fn seeded_from(&self, ek: &EncapsulationKey<T, PQ>) -> bool;

    /// Builds the combiner for the key pair that `ek` belongs to.
    fn new_hybrid(ek: &EncapsulationKey<T, PQ>) -> (c: Self)
        ensures
            c.seeded_from(ek),
    ;
}

impl<C, T, PQ> NewHybrid<T, PQ> for C where C: NewPre, T: BaseKem, PQ: BaseKem {
    open spec fn seeded_from(&self, ek: &EncapsulationKey<T, PQ>) -> bool {
        self.seeded(ek.t.bytes(), ek.pq.bytes())
    }

    fn new_hybrid(ek: &EncapsulationKey<T, PQ>) -> (c: Self) {
        Self::new_pre(ek.t.as_bytes(), ek.pq.as_bytes())
    }
}

/// The hybrid of a classical KEM `T` and a post-quantum KEM `PQ`.
pub struct HybridKem<T, PQ> where T: BaseKem, PQ: BaseKem {
    _phantom_t: std::marker::PhantomData<T>,
    _phantom_pq: std::marker::PhantomData<PQ>,
}

impl<T, PQ> HybridKem<T, PQ> where T: BaseKem, PQ: BaseKem {
    /// The secret that an encapsulation under `ek` yields, given the
    /// ciphertexts and the shared secrets that the two base KEMs produced.
    pub open spec fn encap_secret<C: Combiner>(
        c: &C,
        ek: &EncapsulationKey<T, PQ>,
        ct: &Ciphertext<T, PQ>,
        ss_t: Seq<u8>,
        ss_pq: Seq<u8>,
    ) -> Seq<u8> {
        c.combined(ss_t, ct.t.bytes(), ek.t.bytes(), ss_pq, ct.pq.bytes(), ek.pq.bytes())
    }

    /// The secret that a decapsulation of `ct` under `dk` yields.
    pub open spec fn decap_secret<C: Combiner>(
        c: &C,
        dk: &DecapsulationKey<T, PQ>,
        ct: &Ciphertext<T, PQ>,
    ) -> Seq<u8> {
        c.combined(
            T::decapsulated(&dk.t, ct.t.bytes()),
            ct.t.bytes(),
            dk.ek.t.bytes(),
            PQ::decapsulated(&dk.pq, ct.pq.bytes()),
            ct.pq.bytes(),
            dk.ek.pq.bytes(),
        )
    }

    /// Generates a key pair of each base KEM. The decapsulation key carries a
    /// copy of the encapsulation key.
    pub fn generate(rng: &mut impl CryptoRngCore) -> (keys: (
        DecapsulationKey<T, PQ>,
        EncapsulationKey<T, PQ>,
    ))
        ensures
            T::generated(&keys.0.t, keys.1.t.bytes()),
            PQ::generated(&keys.0.pq, keys.1.pq.bytes()),
            keys.0.embeds(&keys.1),
    {
        let (dk_t, ek_t) = T::generate(rng);
        let (dk_pq, ek_pq) = PQ::generate(rng);

        let ek = EncapsulationKey { t: ek_t, pq: ek_pq };
        let dk = DecapsulationKey { t: dk_t, pq: dk_pq, ek: (&ek).clone() };
        (dk, ek)
    }

    /// Encapsulates under both keys of `ek` and combines the two shared
    /// secrets, the two ciphertexts and the two keys with `c`. The secret is
    /// what `c` derives from some pair of base secrets that the two KEMs
    /// produced; which pair, the random generator decides.
    pub fn encap<C: Combiner>(
        c: &C,
        rng: &mut impl CryptoRngCore,
        ek: &EncapsulationKey<T, PQ>,
    ) -> (out: (Ciphertext<T, PQ>, SharedSecret))
        ensures
            (exists|ss_t: Seq<u8>, ss_pq: Seq<u8>|
                T::encapsulated(ek.t.bytes(), out.0.t.bytes(), ss_t) && PQ::encapsulated(
                    ek.pq.bytes(),
                    out.0.pq.bytes(),
                    ss_pq,
                ) && out.1@ == #[trigger] Self::encap_secret(c, ek, &out.0, ss_t, ss_pq)),
    {
        let (ct_t, ss_t) = T::encap(rng, &ek.t);
        let (ct_pq, ss_pq) = PQ::encap(rng, &ek.pq);
        let out = Self::encap_with(c, ek, ct_t, &ss_t, ct_pq, &ss_pq);
        out
    }

    /// The second half of `encap`: pairs the two ciphertexts and combines the
    /// two shared secrets with them and with the keys of `ek`.
    pub fn encap_with<C: Combiner>(
        c: &C,
        ek: &EncapsulationKey<T, PQ>,
        ct_t: T::Ciphertext,
        ss_t: &T::SharedSecret,
        ct_pq: PQ::Ciphertext,
        ss_pq: &PQ::SharedSecret,
    ) -> (out: (Ciphertext<T, PQ>, SharedSecret))
        ensures
            out.0.t == ct_t,
            out.0.pq == ct_pq,
            out.1@ == Self::encap_secret(c, ek, &out.0, ss_t.bytes(), ss_pq.bytes()),
    {
        let ct: Ciphertext<T, PQ> = Ciphertext { t: ct_t, pq: ct_pq };
        let ss = c.combine(
            ss_t.as_bytes(),
            ct.t.as_bytes(),
            ek.t.as_bytes(),
            ss_pq.as_bytes(),
            ct.pq.as_bytes(),
            ek.pq.as_bytes(),
        );
        (ct, ss)
    }

    /// Decapsulates both ciphertexts and combines the two recovered secrets,
    /// the two ciphertexts and the two keys embedded in `dk` with `c`. With a
    /// combiner other than the one of the encapsulation, the secret differs,
    /// and nothing here detects it.
    pub fn decap<C: Combiner>(
        c: &C,
        dk: &DecapsulationKey<T, PQ>,
        ct: &Ciphertext<T, PQ>,
    ) -> (ss: SharedSecret)
        ensures
            ss@ == Self::decap_secret(c, dk, ct),
    {
        let ss_t = T::decap(&dk.t, &ct.t);
        let ss_pq = PQ::decap(&dk.pq, &ct.pq);

        c.combine(
            ss_t.as_bytes(),
            ct.t.as_bytes(),
            dk.ek.t.as_bytes(),
            ss_pq.as_bytes(),
            ct.pq.as_bytes(),
            dk.ek.pq.as_bytes(),
        )
    }

    /// Round trip: with one combiner and a decapsulation key that embeds the
    /// encapsulation key, decapsulation recovers the secret of an
    /// encapsulation whenever each base KEM recovers its own.
    pub proof fn lemma_round_trip<C: Combiner>(
        c: &C,
        dk: &DecapsulationKey<T, PQ>,
        ek: &EncapsulationKey<T, PQ>,
        ct: &Ciphertext<T, PQ>,
        ss_t: Seq<u8>,
        ss_pq: Seq<u8>,
    )
        requires
            dk.embeds(ek),
            T::decapsulated(&dk.t, ct.t.bytes()) == ss_t,
            PQ::decapsulated(&dk.pq, ct.pq.bytes()) == ss_pq,
        ensures
            Self::decap_secret(c, dk, ct) == Self::encap_secret(c, ek, ct, ss_t, ss_pq),
    {
    }
}

} // verus!
