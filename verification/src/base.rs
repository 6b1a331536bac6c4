//! The base KEMs that a hybrid is made of, and the interface they share.
//!
//! The KEMs themselves are computed by the `x25519-dalek`, `ml-kem` and
//! `classic-mceliece-rust` crates and are not verified here. Keys that only
//! travel back into those crates stay opaque; what a combiner reads
//! (encapsulation keys, ciphertexts, shared secrets) is held as plain bytes.

use vstd::prelude::*;
use rand_core::CryptoRngCore;
use hybrid_array::{sizes::U1088, Array};
use ml_kem::{EncodedSizeUser, KemCore};
use ml_kem::kem::{Decapsulate, Encapsulate};

verus! {

/// A value with one canonical serialization, the only form in which a
/// combiner sees it.
pub trait AsBytes {
    /// The serialization.
    spec fn bytes(&self) -> Seq<u8>;

    /// The serialization, borrowed from the value.
    fn as_bytes(&self) -> (b: &[u8])
        ensures
            b@ == self.bytes(),
    ;
}

impl<const N: usize> AsBytes for [u8; N] {
    open spec fn bytes(&self) -> Seq<u8> {
        self@
    }

    fn as_bytes(&self) -> (b: &[u8]) {
        self.as_slice()
    }
}

/// What a hybrid asks of each of its two components.
///
/// `generate` and `encap` draw on the caller's random generator, so each KEM
/// says for itself, in `generated` and `encapsulated`, what every outcome has
/// in common; `decap` is a function of the key and the ciphertext.
pub trait BaseKem {
    type DecapsulationKey;

    type EncapsulationKey: Clone + AsBytes;

    type Ciphertext: AsBytes;

    type SharedSecret: AsBytes;

    /// What `generate` promises of a key pair it returns, the encapsulation
    /// key given by its serialization.
    spec fn generated(dk: &Self::DecapsulationKey, ek: Seq<u8>) -> bool;

    /// What `encap` promises of a ciphertext and a shared secret it returns
    /// under the key `ek`, all three given by their serializations.
    spec fn encapsulated(ek: Seq<u8>, ct: Seq<u8>, ss: Seq<u8>) -> bool;

    /// The secret that `decap` recovers under `dk` from a ciphertext with the
    /// serialization `ct`.
    spec fn decapsulated(dk: &Self::DecapsulationKey, ct: Seq<u8>) -> Seq<u8>;

    /// A clone of an encapsulation key serializes to the same bytes.
    proof fn lemma_clone_keeps_bytes(ek: &Self::EncapsulationKey, copy: &Self::EncapsulationKey)
        requires
            cloned(*ek, *copy),
        ensures
            copy.bytes() == ek.bytes(),
    ;

    /// Draws a key pair from `rng`.
    fn generate(rng: &mut impl CryptoRngCore) -> (keys: (
        Self::DecapsulationKey,
        Self::EncapsulationKey,
    ))
        ensures
            Self::generated(&keys.0, keys.1.bytes()),
    ;

    /// Draws a shared secret from `rng` and encapsulates it under `ek`.
    fn encap(rng: &mut impl CryptoRngCore, ek: &Self::EncapsulationKey) -> (out: (
        Self::Ciphertext,
        Self::SharedSecret,
    ))
        ensures
            Self::encapsulated(ek.bytes(), out.0.bytes(), out.1.bytes()),
    ;

    /// Recovers the shared secret that `ct` carries. A KEM that rejects
    /// implicitly returns a secret for every ciphertext.
    fn decap(dk: &Self::DecapsulationKey, ct: &Self::Ciphertext) -> (ss: Self::SharedSecret)
        ensures
            ss.bytes() == Self::decapsulated(dk, ct.bytes()),
    ;
}

// Raw X25519

/// `x25519_dalek::StaticSecret`, a secret that can be used more than once.
/// Opaque: a key pair keeps it and hands it back to the crate.
#[verifier::external_type_specification]
#[verifier::external_body]
pub struct ExStaticSecret(x25519_dalek::StaticSecret);

/// `x25519_dalek::EphemeralSecret`, a secret that one agreement uses up.
/// Opaque: it lives for one encapsulation.
#[verifier::external_type_specification]
#[verifier::external_body]
pub struct ExEphemeralSecret(x25519_dalek::EphemeralSecret);

/// The 32 bytes that a static secret holds.
pub uninterp spec fn static_secret_bytes(secret: x25519_dalek::StaticSecret) -> Seq<u8>;

/// The 32 bytes that an ephemeral secret holds.
pub uninterp spec fn ephemeral_secret_bytes(secret: x25519_dalek::EphemeralSecret) -> Seq<u8>;

/// The public key that belongs to a static secret with the bytes `secret`.
pub uninterp spec fn x25519_public(secret: Seq<u8>) -> Seq<u8>;

/// The Diffie-Hellman value of a static secret with the bytes `secret` and a
/// peer's public key.
pub uninterp spec fn x25519_agreement(secret: Seq<u8>, public: Seq<u8>) -> Seq<u8>;

/// The public key that belongs to an ephemeral secret with the bytes
/// `secret`.
pub uninterp spec fn x25519_ephemeral_public(secret: Seq<u8>) -> Seq<u8>;

/// The Diffie-Hellman value of an ephemeral secret with the bytes `secret`
/// and a peer's public key.
pub uninterp spec fn x25519_ephemeral_agreement(secret: Seq<u8>, public: Seq<u8>) -> Seq<u8>;

/// `StaticSecret::random_from_rng`: a secret drawn from `rng`. Nothing is
/// claimed of its value.
#[verifier::external_body]
pub(crate) fn static_secret_random(rng: &mut impl CryptoRngCore) -> x25519_dalek::StaticSecret {
    x25519_dalek::StaticSecret::random_from_rng(rng)
}

/// `PublicKey::from(&StaticSecret)`: the 32 bytes of the public key, which
/// depend on the bytes of the secret alone.
#[verifier::external_body]
pub(crate) fn static_secret_public(secret: &x25519_dalek::StaticSecret) -> (public: [u8; 32])
    ensures
        public@ == x25519_public(static_secret_bytes(*secret)),
{
    x25519_dalek::PublicKey::from(secret).to_bytes()
}

/// `StaticSecret::diffie_hellman`: the 32 bytes of the shared value, which
/// depend on the bytes of the secret and of the peer's public key alone.
#[verifier::external_body]
pub(crate) fn static_secret_agree(
    secret: &x25519_dalek::StaticSecret,
    public: &[u8; 32],
) -> (shared: [u8; 32])
    ensures
        shared@ == x25519_agreement(static_secret_bytes(*secret), public@),
{
    secret.diffie_hellman(&x25519_dalek::PublicKey::from(*public)).to_bytes()
}

/// `EphemeralSecret::random_from_rng`: a secret drawn from `rng`. Nothing is
/// claimed of its value.
#[verifier::external_body]
pub(crate) fn ephemeral_secret_random(
    rng: &mut impl CryptoRngCore,
) -> x25519_dalek::EphemeralSecret {
    x25519_dalek::EphemeralSecret::random_from_rng(rng)
}

/// `PublicKey::from(&EphemeralSecret)`: the 32 bytes of the public key, which
/// depend on the bytes of the secret alone.
#[verifier::external_body]
pub(crate) fn ephemeral_secret_public(
    secret: &x25519_dalek::EphemeralSecret,
) -> (public: [u8; 32])
    ensures
        public@ == x25519_ephemeral_public(ephemeral_secret_bytes(*secret)),
{
    x25519_dalek::PublicKey::from(secret).to_bytes()
}

/// `EphemeralSecret::diffie_hellman`: the 32 bytes of the shared value, which
/// depend on the bytes of the secret and of the peer's public key alone. The
/// secret is used up.
#[verifier::external_body]
pub(crate) fn ephemeral_secret_agree(
    secret: x25519_dalek::EphemeralSecret,
    public: &[u8; 32],
) -> (shared: [u8; 32])
    ensures
        shared@ == x25519_ephemeral_agreement(ephemeral_secret_bytes(secret), public@),
{
    secret.diffie_hellman(&x25519_dalek::PublicKey::from(*public)).to_bytes()
}

/// X25519 used as a KEM: the ciphertext is an ephemeral public key, the shared
/// secret the Diffie-Hellman value.
pub struct X25519;

impl BaseKem for X25519 {
    type DecapsulationKey = x25519_dalek::StaticSecret;

    type EncapsulationKey = [u8; 32];

    type Ciphertext = [u8; 32];

    type SharedSecret = [u8; 32];

    /// The encapsulation key is the public key of the secret.
    open spec fn generated(dk: &Self::DecapsulationKey, ek: Seq<u8>) -> bool {
        ek == x25519_public(static_secret_bytes(*dk))
    }

    /// The ciphertext is the public key of some ephemeral secret, and the
    /// shared secret is what that secret agrees on with `ek`.
    open spec fn encapsulated(ek: Seq<u8>, ct: Seq<u8>, ss: Seq<u8>) -> bool {
        exists|e: Seq<u8>|
            ct == #[trigger] x25519_ephemeral_public(e) && ss == x25519_ephemeral_agreement(e, ek)
    }

    open spec fn decapsulated(dk: &Self::DecapsulationKey, ct: Seq<u8>) -> Seq<u8> {
        x25519_agreement(static_secret_bytes(*dk), ct)
    }

    proof fn lemma_clone_keeps_bytes(ek: &Self::EncapsulationKey, copy: &Self::EncapsulationKey) {
    }

    fn generate(rng: &mut impl CryptoRngCore) -> (keys: (
        Self::DecapsulationKey,
        Self::EncapsulationKey,
    )) {
        let dk = static_secret_random(rng);
        let ek = static_secret_public(&dk);
        (dk, ek)
    }

    fn encap(rng: &mut impl CryptoRngCore, ek: &Self::EncapsulationKey) -> (out: (
        Self::Ciphertext,
        Self::SharedSecret,
    )) {
        let sk_e = ephemeral_secret_random(rng);
        let ct = ephemeral_secret_public(&sk_e);
        let ss = ephemeral_secret_agree(sk_e, ek);
        (ct, ss)
    }

    fn decap(dk: &Self::DecapsulationKey, ct: &Self::Ciphertext) -> (ss: Self::SharedSecret) {
        static_secret_agree(dk, ct)
    }
}

// ML-KEM-768

/// An ML-KEM-768 decapsulation key, held as the `ml-kem` crate decodes it.
/// Its parameter types cannot be described to the verifier, so the key is
/// opaque.
#[verifier::external_body]
pub struct MlKemDecapsulationKey {
    key: <ml_kem::MlKem768 as KemCore>::DecapsulationKey,
}

/// An ML-KEM-768 encapsulation key, held as the `ml-kem` crate decodes it.
/// Its parameter types cannot be described to the verifier, so the key is
/// opaque.
#[verifier::external_body]
pub struct MlKemDecodedKey {
    key: <ml_kem::MlKem768 as KemCore>::EncapsulationKey,
}

/// The 1184-byte encoding of an encapsulation key.
pub uninterp spec fn ml_kem_encoding(ek: MlKemDecodedKey) -> Seq<u8>;

/// The secret that decapsulation derives from a key and a ciphertext.
pub uninterp spec fn ml_kem_decapsulation(dk: MlKemDecapsulationKey, ct: Seq<u8>) -> Seq<u8>;

/// The ciphertext and the shared secret that encapsulation under a key derives
/// from the bytes of a message `m`. Encapsulation draws `m` from the random
/// generator and draws nothing else.
pub uninterp spec fn ml_kem_encapsulation(ek: MlKemDecodedKey, m: Seq<u8>) -> (Seq<u8>, Seq<u8>);

/// `ct` and `ss` are what encapsulation under `ek` derives from some message.
pub open spec fn ml_kem_encapsulated(ek: MlKemDecodedKey, ct: Seq<u8>, ss: Seq<u8>) -> bool {
    exists|m: Seq<u8>| (ct, ss) == #[trigger] ml_kem_encapsulation(ek, m)
}

/// `MlKem768::generate`: a key pair drawn from `rng`. Nothing is claimed of
/// its value.
#[verifier::external_body]
pub(crate) fn ml_kem_generate(rng: &mut impl CryptoRngCore) -> (
    MlKemDecapsulationKey,
    MlKemDecodedKey,
) {
    let (dk, ek) = ml_kem::MlKem768::generate(rng);
    (MlKemDecapsulationKey { key: dk }, MlKemDecodedKey { key: ek })
}

/// `EncodedSizeUser::as_bytes` of an encapsulation key: its encoding, which
/// depends on the key alone.
#[verifier::external_body]
pub(crate) fn ml_kem_encode(ek: &MlKemDecodedKey) -> (encoded: [u8; 1184])
    ensures
        encoded@ == ml_kem_encoding(*ek),
{
    ek.key.as_bytes().into()
}

/// `Clone::clone` of an encapsulation key: the copy has the same encoding.
#[verifier::external_body]
pub(crate) fn ml_kem_duplicate(ek: &MlKemDecodedKey) -> (copy: MlKemDecodedKey)
    ensures
        ml_kem_encoding(copy) == ml_kem_encoding(*ek),
{
    MlKemDecodedKey { key: ek.key.clone() }
}

/// `Encapsulate::encapsulate`: a ciphertext and the secret it carries. The
/// crate draws one message from `rng` and derives both from the key and that
/// message; which message, nothing says. The call cannot fail: the
/// crate always answers `Ok`.
#[verifier::external_body]
pub(crate) fn ml_kem_encapsulate(ek: &MlKemDecodedKey, rng: &mut impl CryptoRngCore) -> (out: (
    [u8; 1088],
    [u8; 32],
))
    ensures
        (exists|m: Seq<u8>| (out.0@, out.1@) == #[trigger] ml_kem_encapsulation(*ek, m)),
{
    let (ct, ss) = ek.key.encapsulate(rng).unwrap();
    (ct.into(), ss.into())
}

/// `Decapsulate::decapsulate`: the secret, which depends on the key and the
/// ciphertext alone. A ciphertext that was tampered with yields a secret all
/// the same. The call cannot fail: the crate always answers `Ok`.
#[verifier::external_body]
pub(crate) fn ml_kem_decapsulate(dk: &MlKemDecapsulationKey, ct: &[u8; 1088]) -> (ss: [u8; 32])
    ensures
        ss@ == ml_kem_decapsulation(*dk, ct@),
{
    dk.key.decapsulate(<&Array<u8, U1088>>::from(ct)).unwrap().into()
}

/// An ML-KEM-768 encapsulation key together with its encoding, so that the
/// encoding is computed once.
pub struct MlKemEncapsulationKey {
    ek: MlKemDecodedKey,
    ek_bytes: [u8; 1184],
}

impl MlKemEncapsulationKey {
    /// The stored bytes are the encoding of the stored key.
    #[verifier::type_invariant]
    spec fn encoded(&self) -> bool {
        self.ek_bytes@ == ml_kem_encoding(self.ek)
    }

    /// The decoded key.
    pub closed spec fn key(&self) -> MlKemDecodedKey {
        self.ek
    }

    /// Encodes `ek` and keeps the encoding beside it.
    pub fn new(ek: MlKemDecodedKey) -> (key: Self)
        ensures
            key.key() == ek,
            key.bytes() == ml_kem_encoding(ek),
    {
        let ek_bytes = ml_kem_encode(&ek);
        Self { ek, ek_bytes }
    }
}

impl Clone for MlKemEncapsulationKey {
    fn clone(&self) -> (copy: Self)
        ensures
            copy.bytes() == self.bytes(),
    {
        proof {
            use_type_invariant(self);
        }
        Self { ek: ml_kem_duplicate(&self.ek), ek_bytes: self.ek_bytes }
    }
}

impl AsBytes for MlKemEncapsulationKey {
    closed spec fn bytes(&self) -> Seq<u8> {
        self.ek_bytes@
    }

    fn as_bytes(&self) -> (b: &[u8])
        ensures
            b@ == ml_kem_encoding(self.key()),
    {
        proof {
            use_type_invariant(self);
        }
        self.ek_bytes.as_slice()
    }
}

/// ML-KEM-768.
pub struct MlKem;

impl BaseKem for MlKem {
    type DecapsulationKey = MlKemDecapsulationKey;

    type EncapsulationKey = MlKemEncapsulationKey;

    type Ciphertext = [u8; 1088];

    type SharedSecret = [u8; 32];

    /// The encapsulation key serializes to 1184 bytes.
    open spec fn generated(dk: &Self::DecapsulationKey, ek: Seq<u8>) -> bool {
        ek.len() == 1184
    }

    /// The ciphertext has 1088 bytes and the shared secret 32, and both are
    /// what encapsulation under a key with the encoding `ek` derives from
    /// some message.
    open spec fn encapsulated(ek: Seq<u8>, ct: Seq<u8>, ss: Seq<u8>) -> bool {
        &&& ct.len() == 1088
        &&& ss.len() == 32
        &&& exists|key: MlKemDecodedKey|
            ml_kem_encoding(key) == ek && #[trigger] ml_kem_encapsulated(key, ct, ss)
    }

    open spec fn decapsulated(dk: &Self::DecapsulationKey, ct: Seq<u8>) -> Seq<u8> {
        ml_kem_decapsulation(*dk, ct)
    }

    proof fn lemma_clone_keeps_bytes(ek: &Self::EncapsulationKey, copy: &Self::EncapsulationKey) {
        if *ek != *copy {
            assert(call_ensures(Self::EncapsulationKey::clone, (ek,), *copy));
        }
    }

    fn generate(rng: &mut impl CryptoRngCore) -> (keys: (
        Self::DecapsulationKey,
        Self::EncapsulationKey,
    ))
        ensures
            keys.1.bytes() == ml_kem_encoding(keys.1.key()),
    {
        let (dk, ek) = ml_kem_generate(rng);
        (dk, MlKemEncapsulationKey::new(ek))
    }

    fn encap(rng: &mut impl CryptoRngCore, ek: &Self::EncapsulationKey) -> (out: (
        Self::Ciphertext,
        Self::SharedSecret,
    )) {
        proof {
            use_type_invariant(ek);
        }
        let out = ml_kem_encapsulate(&ek.ek, rng);
        assert(ml_kem_encapsulated(ek.ek, out.0@, out.1@));
        out
    }

    fn decap(dk: &Self::DecapsulationKey, ct: &Self::Ciphertext) -> (ss: Self::SharedSecret) {
        ml_kem_decapsulate(dk, ct)
    }
}

// Classic McEliece

/// `classic_mceliece_rust::SecretKey`, a buffer of secret key bytes. Opaque: a
/// key pair keeps it and hands it back to the crate.
#[verifier::external_type_specification]
#[verifier::external_body]
pub struct ExSecretKey<'a>(classic_mceliece_rust::SecretKey<'a>);

/// `classic_mceliece_rust::PublicKey`, a buffer of public key bytes. Opaque:
/// at a quarter of a megabyte it is read in place, never copied out.
#[verifier::external_type_specification]
#[verifier::external_body]
pub struct ExPublicKey<'a>(classic_mceliece_rust::PublicKey<'a>);

/// The bytes of a public key.
pub uninterp spec fn mceliece_public_key(pk: classic_mceliece_rust::PublicKey<'static>) -> Seq<u8>;

/// The bytes of a secret key.
pub uninterp spec fn mceliece_secret_key(sk: classic_mceliece_rust::SecretKey<'static>) -> Seq<u8>;

/// The secret that decapsulation derives from the bytes of a secret key and a
/// ciphertext.
pub uninterp spec fn mceliece_decapsulation(sk: Seq<u8>, ct: Seq<u8>) -> Seq<u8>;

/// The ciphertext and the shared secret that encapsulation derives from the
/// bytes of a public key and the bytes of an error vector `e`. Encapsulation
/// uses the random generator to pick `e` and for nothing else.
pub uninterp spec fn mceliece_encapsulation(pk: Seq<u8>, e: Seq<u8>) -> (Seq<u8>, Seq<u8>);

/// `keypair_boxed`: a key pair drawn from `rng`, on the heap. Of its value
/// only the size of the public key is claimed, which the crate fixes at
/// 261120 bytes for this parameter set.
#[verifier::external_body]
pub(crate) fn mceliece_keypair(rng: &mut impl CryptoRngCore) -> (keys: (
    classic_mceliece_rust::PublicKey<'static>,
    classic_mceliece_rust::SecretKey<'static>,
))
    ensures
        mceliece_public_key(keys.0).len() == 261120,
{
    classic_mceliece_rust::keypair_boxed(rng)
}

/// `AsRef<[u8]>::as_ref` of a public key: its bytes, which depend on the key
/// alone.
#[verifier::external_body]
pub(crate) fn mceliece_public_key_bytes<'a>(
    pk: &'a classic_mceliece_rust::PublicKey<'static>,
) -> (b: &'a [u8])
    ensures
        b@ == mceliece_public_key(*pk),
{
    pk.as_ref()
}

/// `PublicKey::to_owned`: a copy on the heap, with the same bytes.
#[verifier::external_body]
pub(crate) fn mceliece_public_key_copy(
    pk: &classic_mceliece_rust::PublicKey<'static>,
) -> (copy: classic_mceliece_rust::PublicKey<'static>)
    ensures
        mceliece_public_key(copy) == mceliece_public_key(*pk),
{
    pk.to_owned()
}

/// `encapsulate_boxed`: a ciphertext and the secret it carries. The crate
/// picks an error vector with the help of `rng` and derives both from the
/// bytes of the public key and that vector; which vector, nothing says.
#[verifier::external_body]
pub(crate) fn mceliece_encapsulate(
    pk: &classic_mceliece_rust::PublicKey<'static>,
    rng: &mut impl CryptoRngCore,
) -> (out: ([u8; 96], [u8; 32]))
    ensures
        (exists|e: Seq<u8>|
            (out.0@, out.1@) == #[trigger] mceliece_encapsulation(mceliece_public_key(*pk), e)),
{
    let (ct, ss) = classic_mceliece_rust::encapsulate_boxed(pk, rng);
    (*ct.as_array(), *ss.as_array())
}

/// `decapsulate_boxed`: the secret, which depends on the bytes of the secret
/// key and of the ciphertext alone. A ciphertext that does not decode yields a
/// secret all the same.
#[verifier::external_body]
pub(crate) fn mceliece_decapsulate(
    ct: &[u8; 96],
    sk: &classic_mceliece_rust::SecretKey<'static>,
) -> (ss: [u8; 32])
    ensures
        ss@ == mceliece_decapsulation(mceliece_secret_key(*sk), ct@),
{
    let ct = classic_mceliece_rust::Ciphertext::from(*ct);
    *classic_mceliece_rust::decapsulate_boxed(&ct, sk).as_array()
}

/// A Classic McEliece secret key on the heap.
pub type McElieceDecapsulationKey = classic_mceliece_rust::SecretKey<'static>;

/// A Classic McEliece public key on the heap.
pub struct McElieceEncapsulationKey(classic_mceliece_rust::PublicKey<'static>);

impl Clone for McElieceEncapsulationKey {
    fn clone(&self) -> (copy: Self)
        ensures
            copy.bytes() == self.bytes(),
    {
        Self(mceliece_public_key_copy(&self.0))
    }
}

impl AsBytes for McElieceEncapsulationKey {
    closed spec fn bytes(&self) -> Seq<u8> {
        mceliece_public_key(self.0)
    }

    fn as_bytes(&self) -> (b: &[u8]) {
        mceliece_public_key_bytes(&self.0)
    }
}

/// Classic McEliece, in the parameter set `mceliece348864f`.
pub struct ClassicMcEliece;

impl BaseKem for ClassicMcEliece {
    type DecapsulationKey = McElieceDecapsulationKey;

    type EncapsulationKey = McElieceEncapsulationKey;

    type Ciphertext = [u8; 96];

    type SharedSecret = [u8; 32];

    /// The encapsulation key has 261120 bytes.
    open spec fn generated(dk: &Self::DecapsulationKey, ek: Seq<u8>) -> bool {
        ek.len() == 261120
    }

    /// The ciphertext has 96 bytes and the shared secret 32, and both are
    /// what encapsulation under `ek` derives from some error vector.
    open spec fn encapsulated(ek: Seq<u8>, ct: Seq<u8>, ss: Seq<u8>) -> bool {
        &&& ct.len() == 96
        &&& ss.len() == 32
        &&& exists|e: Seq<u8>| (ct, ss) == #[trigger] mceliece_encapsulation(ek, e)
    }

    open spec fn decapsulated(dk: &Self::DecapsulationKey, ct: Seq<u8>) -> Seq<u8> {
        mceliece_decapsulation(mceliece_secret_key(*dk), ct)
    }

    proof fn lemma_clone_keeps_bytes(ek: &Self::EncapsulationKey, copy: &Self::EncapsulationKey) {
        if *ek != *copy {
            assert(call_ensures(Self::EncapsulationKey::clone, (ek,), *copy));
        }
    }

    fn generate(rng: &mut impl CryptoRngCore) -> (keys: (
        Self::DecapsulationKey,
        Self::EncapsulationKey,
    )) {
        let (ek, dk) = mceliece_keypair(rng);
        (dk, McElieceEncapsulationKey(ek))
    }

    fn encap(rng: &mut impl CryptoRngCore, ek: &Self::EncapsulationKey) -> (out: (
        Self::Ciphertext,
        Self::SharedSecret,
    )) {
        mceliece_encapsulate(&ek.0, rng)
    }

    fn decap(dk: &Self::DecapsulationKey, ct: &Self::Ciphertext) -> (ss: Self::SharedSecret) {
        mceliece_decapsulate(ct, dk)
    }
}

} // verus!
