//! The combiner family: six ways to hash two shared secrets, two ciphertexts
//! and two encapsulation keys into one 32-byte secret, and precomputing
//! variants of three of them.

use vstd::prelude::*;
use crate::hash::{absorbed, sha3_256, Hasher};

verus! {

/// The output of every combiner: one SHA3-256 digest.
pub type SharedSecret = [u8; 32];

/// A function from the six byte strings of a hybrid encapsulation to one
/// shared secret.
pub trait Combiner {
    /// The secret this combiner derives, as a function of the combiner and its
    /// six inputs and of nothing else.
    spec fn combined(
        &self,
        ss_t: Seq<u8>,
        ct_t: Seq<u8>,
        ek_t: Seq<u8>,
        ss_pq: Seq<u8>,
        ct_pq: Seq<u8>,
        ek_pq: Seq<u8>,
    ) -> Seq<u8>;

    /// Derives the shared secret of a hybrid encapsulation from the two base
    /// secrets, the two ciphertexts and the two encapsulation keys.
    fn combine(
        &self,
        ss_t: &[u8],
        ct_t: &[u8],
        ek_t: &[u8],
        ss_pq: &[u8],
        ct_pq: &[u8],
        ek_pq: &[u8],
    ) -> (ss: SharedSecret)
        ensures
            ss@ == self.combined(ss_t@, ct_t@, ek_t@, ss_pq@, ct_pq@, ek_pq@),
            ss@.len() == 32,
    ;
}

/// `H(ek_t || ek_pq || ss_t || ct_t || ss_pq || ct_pq)`.
pub open spec fn kitchen_sink(
    ss_t: Seq<u8>,
    ct_t: Seq<u8>,
    ek_t: Seq<u8>,
    ss_pq: Seq<u8>,
    ct_pq: Seq<u8>,
    ek_pq: Seq<u8>,
) -> Seq<u8> {
    sha3_256(ek_t + ek_pq + ss_t + ct_t + ss_pq + ct_pq)
}

/// Binds all six inputs in a single flat hash.
pub struct KitchenSink;

impl Combiner for KitchenSink {
    open spec fn combined(
        &self,
        ss_t: Seq<u8>,
        ct_t: Seq<u8>,
        ek_t: Seq<u8>,
        ss_pq: Seq<u8>,
        ct_pq: Seq<u8>,
        ek_pq: Seq<u8>,
    ) -> Seq<u8> {
        kitchen_sink(ss_t, ct_t, ek_t, ss_pq, ct_pq, ek_pq)
    }

    fn combine(
        &self,
        ss_t: &[u8],
        ct_t: &[u8],
        ek_t: &[u8],
        ss_pq: &[u8],
        ct_pq: &[u8],
        ek_pq: &[u8],
    ) -> (ss: SharedSecret) {
        let mut h = Hasher::new();
        h.update(ek_t);
        h.update(ek_pq);
        h.update(ss_t);
        h.update(ct_t);
        h.update(ss_pq);
        h.update(ct_pq);
        h.finalize()
    }
}

/// A combiner that can be built ahead of time from the two encapsulation keys
/// of one key pair, so that the cost of hashing them is paid once.
pub trait NewPre: Sized {
    /// Whether this combiner holds what `new_pre` computes from these two keys.
    spec fn seeded(&self, ek_t: Seq<u8>, ek_pq: Seq<u8>) -> bool;

    /// Builds the combiner for the key pair with these two encapsulation
    /// keys.
    fn new_pre(ek_t: &[u8], ek_pq: &[u8]) -> (c: Self)
        ensures
            c.seeded(ek_t@, ek_pq@),
    ;
}

/// `KitchenSink` with the hash of the two encapsulation keys started ahead of
/// time. The keys passed to `combine` are not read.
pub struct KitchenSinkPre {
    prefix: Hasher,
}

impl KitchenSinkPre {
    /// The bytes that the stored hasher has absorbed.
    pub closed spec fn prefix(&self) -> Seq<u8> {
        absorbed(self.prefix)
    }
}

impl NewPre for KitchenSinkPre {
    open spec fn seeded(&self, ek_t: Seq<u8>, ek_pq: Seq<u8>) -> bool {
        self.prefix() == ek_t + ek_pq
    }

    fn new_pre(ek_t: &[u8], ek_pq: &[u8]) -> (c: Self) {
        let mut prefix = Hasher::new();
        prefix.update(ek_t);
        prefix.update(ek_pq);
        Self { prefix }
    }
}

impl Combiner for KitchenSinkPre {
    open spec fn combined(
        &self,
        ss_t: Seq<u8>,
        ct_t: Seq<u8>,
        ek_t: Seq<u8>,
        ss_pq: Seq<u8>,
        ct_pq: Seq<u8>,
        ek_pq: Seq<u8>,
    ) -> Seq<u8> {
        sha3_256(self.prefix() + ss_t + ct_t + ss_pq + ct_pq)
    }

    fn combine(
        &self,
        ss_t: &[u8],
        ct_t: &[u8],
        _ek_t: &[u8],
        ss_pq: &[u8],
        ct_pq: &[u8],
        _ek_pq: &[u8],
    ) -> (ss: SharedSecret) {
        let mut h = self.prefix.snapshot();
        h.update(ss_t);
        h.update(ct_t);
        h.update(ss_pq);
        h.update(ct_pq);
        h.finalize()
    }
}

/// `H(ss_t || ss_pq || H(ek_t || ek_pq) || H(ct_t || ct_pq))`.
pub open spec fn chempat(
    ss_t: Seq<u8>,
    ct_t: Seq<u8>,
    ek_t: Seq<u8>,
    ss_pq: Seq<u8>,
    ct_pq: Seq<u8>,
    ek_pq: Seq<u8>,
) -> Seq<u8> {
    let hybrid_ek = sha3_256(ek_t + ek_pq);
    let hybrid_ct = sha3_256(ct_t + ct_pq);
    sha3_256(ss_t + ss_pq + hybrid_ek + hybrid_ct)
}

/// Binds all six inputs through one digest of the keys and one of the
/// ciphertexts.
pub struct Chempat;

impl Combiner for Chempat {
    open spec fn combined(
        &self,
        ss_t: Seq<u8>,
        ct_t: Seq<u8>,
        ek_t: Seq<u8>,
        ss_pq: Seq<u8>,
        ct_pq: Seq<u8>,
        ek_pq: Seq<u8>,
    ) -> Seq<u8> {
        chempat(ss_t, ct_t, ek_t, ss_pq, ct_pq, ek_pq)
    }

    fn combine(
        &self,
        ss_t: &[u8],
        ct_t: &[u8],
        ek_t: &[u8],
        ss_pq: &[u8],
        ct_pq: &[u8],
        ek_pq: &[u8],
    ) -> (ss: SharedSecret) {
        let mut h = Hasher::new();

        h.update(ek_t);
        h.update(ek_pq);
        let hybrid_ek = h.finalize_reset();

        h.update(ct_t);
        h.update(ct_pq);
        let hybrid_ct = h.finalize_reset();

        h.update(ss_t);
        h.update(ss_pq);
        h.update(&hybrid_ek);
        h.update(&hybrid_ct);
        h.finalize()
    }
}

/// `Chempat` with the digest of the two encapsulation keys computed ahead of
/// time. The keys passed to `combine` are not read.
pub struct ChempatPre {
    hybrid_ek: [u8; 32],
}

impl ChempatPre {
    /// The stored digest of the encapsulation keys.
    pub closed spec fn hybrid_ek(&self) -> Seq<u8> {
        self.hybrid_ek@
    }
}

impl NewPre for ChempatPre {
    open spec fn seeded(&self, ek_t: Seq<u8>, ek_pq: Seq<u8>) -> bool {
        self.hybrid_ek() == sha3_256(ek_t + ek_pq)
    }

    fn new_pre(ek_t: &[u8], ek_pq: &[u8]) -> (c: Self) {
        let mut h = Hasher::new();
        h.update(ek_t);
        h.update(ek_pq);

        Self { hybrid_ek: h.finalize() }
    }
}

impl Combiner for ChempatPre {
    open spec fn combined(
        &self,
        ss_t: Seq<u8>,
        ct_t: Seq<u8>,
        ek_t: Seq<u8>,
        ss_pq: Seq<u8>,
        ct_pq: Seq<u8>,
        ek_pq: Seq<u8>,
    ) -> Seq<u8> {
        sha3_256(ss_t + ss_pq + self.hybrid_ek() + sha3_256(ct_t + ct_pq))
    }

    fn combine(
        &self,
        ss_t: &[u8],
        ct_t: &[u8],
        _ek_t: &[u8],
        ss_pq: &[u8],
        ct_pq: &[u8],
        _ek_pq: &[u8],
    ) -> (ss: SharedSecret) {
        let mut h = Hasher::new();

        h.update(ct_t);
        h.update(ct_pq);
        let hybrid_ct = h.finalize_reset();

        h.update(ss_t);
        h.update(ss_pq);
        h.update(&self.hybrid_ek);
        h.update(&hybrid_ct);
        h.finalize()
    }
}

/// `H(H(ek_t || ss_t || ct_t) || H(ek_pq || ss_pq || ct_pq))`.
pub open spec fn dhkem(
    ss_t: Seq<u8>,
    ct_t: Seq<u8>,
    ek_t: Seq<u8>,
    ss_pq: Seq<u8>,
    ct_pq: Seq<u8>,
    ek_pq: Seq<u8>,
) -> Seq<u8> {
    let input_t = sha3_256(ek_t + ss_t + ct_t);
    let input_pq = sha3_256(ek_pq + ss_pq + ct_pq);
    sha3_256(input_t + input_pq)
}

/// Derives one digest per component from its key, secret and ciphertext, then
/// hashes the two digests together.
pub struct Dhkem;

impl Combiner for Dhkem {
    open spec fn combined(
        &self,
        ss_t: Seq<u8>,
        ct_t: Seq<u8>,
        ek_t: Seq<u8>,
        ss_pq: Seq<u8>,
        ct_pq: Seq<u8>,
        ek_pq: Seq<u8>,
    ) -> Seq<u8> {
        dhkem(ss_t, ct_t, ek_t, ss_pq, ct_pq, ek_pq)
    }

    fn combine(
        &self,
        ss_t: &[u8],
        ct_t: &[u8],
        ek_t: &[u8],
        ss_pq: &[u8],
        ct_pq: &[u8],
        ek_pq: &[u8],
    ) -> (ss: SharedSecret) {
        let mut h = Hasher::new();

        h.update(ek_t);
        h.update(ss_t);
        h.update(ct_t);
        let input_t = h.finalize_reset();

        h.update(ek_pq);
        h.update(ss_pq);
        h.update(ct_pq);
        let input_pq = h.finalize_reset();

        h.update(&input_t);
        h.update(&input_pq);
        h.finalize()
    }
}

/// `Dhkem` with each component's hash started ahead of time from that
/// component's encapsulation key. The keys passed to `combine` are not read.
pub struct DhkemPre {
    prefix_t: Hasher,
    prefix_pq: Hasher,
}

impl DhkemPre {
    /// The bytes that the stored classical hasher has absorbed.
    pub closed spec fn prefix_t(&self) -> Seq<u8> {
        absorbed(self.prefix_t)
    }

    /// The bytes that the stored post-quantum hasher has absorbed.
    pub closed spec fn prefix_pq(&self) -> Seq<u8> {
        absorbed(self.prefix_pq)
    }
}

impl NewPre for DhkemPre {
    open spec fn seeded(&self, ek_t: Seq<u8>, ek_pq: Seq<u8>) -> bool {
        &&& self.prefix_t() == ek_t
        &&& self.prefix_pq() == ek_pq
    }

    fn new_pre(ek_t: &[u8], ek_pq: &[u8]) -> (c: Self) {
        let mut prefix_t = Hasher::new();
        prefix_t.update(ek_t);

        let mut prefix_pq = Hasher::new();
        prefix_pq.update(ek_pq);

        Self { prefix_t, prefix_pq }
    }
}

impl Combiner for DhkemPre {
    open spec fn combined(
        &self,
        ss_t: Seq<u8>,
        ct_t: Seq<u8>,
        ek_t: Seq<u8>,
        ss_pq: Seq<u8>,
        ct_pq: Seq<u8>,
        ek_pq: Seq<u8>,
    ) -> Seq<u8> {
        let input_t = sha3_256(self.prefix_t() + ss_t + ct_t);
        let input_pq = sha3_256(self.prefix_pq() + ss_pq + ct_pq);
        sha3_256(input_t + input_pq)
    }

    fn combine(
        &self,
        ss_t: &[u8],
        ct_t: &[u8],
        _ek_t: &[u8],
        ss_pq: &[u8],
        ct_pq: &[u8],
        _ek_pq: &[u8],
    ) -> (ss: SharedSecret) {
        let mut t = self.prefix_t.snapshot();
        t.update(ss_t);
        t.update(ct_t);

        let mut pq = self.prefix_pq.snapshot();
        pq.update(ss_pq);
        pq.update(ct_pq);

        let mut h = Hasher::new();
        h.update(&t.finalize());
        h.update(&pq.finalize());
        h.finalize()
    }
}

/// `H(H(ss_t || ct_t || ek_t) || ss_pq)`.
pub open spec fn dhkem_half(
    ss_t: Seq<u8>,
    ct_t: Seq<u8>,
    ek_t: Seq<u8>,
    ss_pq: Seq<u8>,
    ct_pq: Seq<u8>,
    ek_pq: Seq<u8>,
) -> Seq<u8> {
    let input_t = sha3_256(ss_t + ct_t + ek_t);
    sha3_256(input_t + ss_pq)
}

/// Binds the classical secret, ciphertext and key, and of the post-quantum
/// component only its shared secret.
pub struct DhkemHalf;

impl Combiner for DhkemHalf {
    open spec fn combined(
        &self,
        ss_t: Seq<u8>,
        ct_t: Seq<u8>,
        ek_t: Seq<u8>,
        ss_pq: Seq<u8>,
        ct_pq: Seq<u8>,
        ek_pq: Seq<u8>,
    ) -> Seq<u8> {
        dhkem_half(ss_t, ct_t, ek_t, ss_pq, ct_pq, ek_pq)
    }

    fn combine(
        &self,
        ss_t: &[u8],
        ct_t: &[u8],
        ek_t: &[u8],
        ss_pq: &[u8],
        _ct_pq: &[u8],
        _ek_pq: &[u8],
    ) -> (ss: SharedSecret) {
        let mut h = Hasher::new();

        h.update(ss_t);
        h.update(ct_t);
        h.update(ek_t);
        let input_t = h.finalize_reset();

        h.update(&input_t);
        h.update(ss_pq);
        h.finalize()
    }
}

/// `H(ss_pq || ss_t || ct_t || ek_t)`.
pub open spec fn xwing(
    ss_t: Seq<u8>,
    ct_t: Seq<u8>,
    ek_t: Seq<u8>,
    ss_pq: Seq<u8>,
    ct_pq: Seq<u8>,
    ek_pq: Seq<u8>,
) -> Seq<u8> {
    sha3_256(ss_pq + ss_t + ct_t + ek_t)
}

/// Binds the post-quantum secret and the classical secret, ciphertext and
/// key in a single flat hash; the post-quantum ciphertext and key are left out.
pub struct XWing;

impl Combiner for XWing {
    open spec fn combined(
        &self,
        ss_t: Seq<u8>,
        ct_t: Seq<u8>,
        ek_t: Seq<u8>,
        ss_pq: Seq<u8>,
        ct_pq: Seq<u8>,
        ek_pq: Seq<u8>,
    ) -> Seq<u8> {
        xwing(ss_t, ct_t, ek_t, ss_pq, ct_pq, ek_pq)
    }

    fn combine(
        &self,
        ss_t: &[u8],
        ct_t: &[u8],
        ek_t: &[u8],
        ss_pq: &[u8],
        _ct_pq: &[u8],
        _ek_pq: &[u8],
    ) -> (ss: SharedSecret) {
        let mut h = Hasher::new();
        h.update(ss_pq);
        h.update(ss_t);
        h.update(ct_t);
        h.update(ek_t);
        h.finalize()
    }
}

/// Determinism: whatever two calls of `combine` return for the same combiner
/// and the same six inputs is the same secret, byte for byte.
pub proof fn lemma_combine_deterministic<C: Combiner>(
    c: &C,
    ss_t: &[u8],
    ct_t: &[u8],
    ek_t: &[u8],
    ss_pq: &[u8],
    ct_pq: &[u8],
    ek_pq: &[u8],
    first: SharedSecret,
    second: SharedSecret,
)
    requires
        call_ensures(C::combine, (c, ss_t, ct_t, ek_t, ss_pq, ct_pq, ek_pq), first),
        call_ensures(C::combine, (c, ss_t, ct_t, ek_t, ss_pq, ct_pq, ek_pq), second),
    ensures
        first == second,
{
}

/// Precomputation changes nothing: a `KitchenSinkPre` seeded from two keys
/// derives what `KitchenSink` derives when it is given the same keys,
/// whatever keys the precomputing `combine` is handed.
pub proof fn lemma_kitchen_sink_pre_equivalent(
    pre: &KitchenSinkPre,
    ss_t: Seq<u8>,
    ct_t: Seq<u8>,
    ek_t: Seq<u8>,
    ss_pq: Seq<u8>,
    ct_pq: Seq<u8>,
    ek_pq: Seq<u8>,
    unread_t: Seq<u8>,
    unread_pq: Seq<u8>,
)
    requires
        pre.seeded(ek_t, ek_pq),
    ensures
        pre.combined(ss_t, ct_t, unread_t, ss_pq, ct_pq, unread_pq) == KitchenSink.combined(
            ss_t,
            ct_t,
            ek_t,
            ss_pq,
            ct_pq,
            ek_pq,
        ),
{
}

/// Precomputation changes nothing: a `ChempatPre` seeded from two keys
/// derives what `Chempat` derives when it is given the same keys, whatever
/// keys the precomputing `combine` is handed.
pub proof fn lemma_chempat_pre_equivalent(
    pre: &ChempatPre,
    ss_t: Seq<u8>,
    ct_t: Seq<u8>,
    ek_t: Seq<u8>,
    ss_pq: Seq<u8>,
    ct_pq: Seq<u8>,
    ek_pq: Seq<u8>,
    unread_t: Seq<u8>,
    unread_pq: Seq<u8>,
)
    requires
        pre.seeded(ek_t, ek_pq),
    ensures
        pre.combined(ss_t, ct_t, unread_t, ss_pq, ct_pq, unread_pq) == Chempat.combined(
            ss_t,
            ct_t,
            ek_t,
            ss_pq,
            ct_pq,
            ek_pq,
        ),
{
}

/// Precomputation changes nothing: a `DhkemPre` seeded from two keys derives
/// what `Dhkem` derives when it is given the same keys, whatever keys the
/// precomputing `combine` is handed.
pub proof fn lemma_dhkem_pre_equivalent(
    pre: &DhkemPre,
    ss_t: Seq<u8>,
    ct_t: Seq<u8>,
    ek_t: Seq<u8>,
    ss_pq: Seq<u8>,
    ct_pq: Seq<u8>,
    ek_pq: Seq<u8>,
    unread_t: Seq<u8>,
    unread_pq: Seq<u8>,
)
    requires
        pre.seeded(ek_t, ek_pq),
    ensures
        pre.combined(ss_t, ct_t, unread_t, ss_pq, ct_pq, unread_pq) == Dhkem.combined(
            ss_t,
            ct_t,
            ek_t,
            ss_pq,
            ct_pq,
            ek_pq,
        ),
{
}

} // verus!
