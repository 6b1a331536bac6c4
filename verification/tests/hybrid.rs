use kem_combiners::base::{AsBytes, BaseKem, ClassicMcEliece, MlKem, X25519};
use kem_combiners::combiners::{
    Chempat, ChempatPre, Combiner, Dhkem, DhkemHalf, DhkemPre, KitchenSink, KitchenSinkPre, XWing,
};
use kem_combiners::hybrid::{
    Ciphertext, DecapsulationKey, EncapsulationKey, HybridKem, NewHybrid,
};
use sha3::{Digest, Sha3_256};

fn hash(parts: &[&[u8]]) -> [u8; 32] {
    let mut h = Sha3_256::new();
    for part in parts {
        h.update(part);
    }
    h.finalize().into()
}

fn round_trip<T: BaseKem, PQ: BaseKem, C: Combiner>(
    c: &C,
    dk: &DecapsulationKey<T, PQ>,
    ek: &EncapsulationKey<T, PQ>,
) {
    let mut rng = rand::thread_rng();
    let (ct, ss_e) = HybridKem::encap(c, &mut rng, ek);
    let ss_d = HybridKem::decap(c, dk, &ct);
    assert_eq!(ss_e, ss_d);
}

fn round_trip_with_every_combiner<T: BaseKem, PQ: BaseKem>() {
    let mut rng = rand::thread_rng();
    let (dk, ek) = HybridKem::<T, PQ>::generate(&mut rng);

    round_trip(&KitchenSink, &dk, &ek);
    round_trip(&Chempat, &dk, &ek);
    round_trip(&Dhkem, &dk, &ek);
    round_trip(&DhkemHalf, &dk, &ek);
    round_trip(&XWing, &dk, &ek);

    round_trip(&KitchenSinkPre::new_hybrid(&ek), &dk, &ek);
    round_trip(&ChempatPre::new_hybrid(&ek), &dk, &ek);
    round_trip(&DhkemPre::new_hybrid(&ek), &dk, &ek);
}

#[test]
fn x25519_with_ml_kem_round_trips() {
    round_trip_with_every_combiner::<X25519, MlKem>();
}

#[test]
fn x25519_with_classic_mceliece_round_trips() {
    let mut rng = rand::thread_rng();
    let (dk, ek) = HybridKem::<X25519, ClassicMcEliece>::generate(&mut rng);
    assert_eq!(dk.ek.pq.as_bytes(), ek.pq.as_bytes());

    round_trip(&KitchenSink, &dk, &ek);
    round_trip(&DhkemPre::new_hybrid(&ek), &dk, &ek);

    let (ct, ss) = HybridKem::encap(&Chempat, &mut rng, &ek);
    assert_eq!(HybridKem::decap(&ChempatPre::new_hybrid(&ek), &dk, &ct), ss);
}

#[test]
fn generate_embeds_the_encapsulation_key() {
    let mut rng = rand::thread_rng();
    let (dk, ek) = HybridKem::<X25519, MlKem>::generate(&mut rng);
    assert_eq!(dk.ek.t, ek.t);
    assert_eq!(dk.ek.pq.as_bytes(), ek.pq.as_bytes());
    assert_eq!(ek.t, x25519_dalek::PublicKey::from(&dk.t).to_bytes());

    let copy = ek.clone();
    assert_eq!(copy.t, ek.t);
    assert_eq!(copy.pq.as_bytes(), ek.pq.as_bytes());
}

#[test]
fn precomputing_and_plain_combiners_agree_across_encap_and_decap() {
    let mut rng = rand::thread_rng();
    let (dk, ek) = HybridKem::<X25519, MlKem>::generate(&mut rng);

    let pre = KitchenSinkPre::new_hybrid(&ek);
    let (ct, ss) = HybridKem::encap(&KitchenSink, &mut rng, &ek);
    assert_eq!(HybridKem::decap(&pre, &dk, &ct), ss);
    let (ct, ss) = HybridKem::encap(&pre, &mut rng, &ek);
    assert_eq!(HybridKem::decap(&KitchenSink, &dk, &ct), ss);

    let pre = ChempatPre::new_hybrid(&ek);
    let (ct, ss) = HybridKem::encap(&Chempat, &mut rng, &ek);
    assert_eq!(HybridKem::decap(&pre, &dk, &ct), ss);
    let (ct, ss) = HybridKem::encap(&pre, &mut rng, &ek);
    assert_eq!(HybridKem::decap(&Chempat, &dk, &ct), ss);

    let pre = DhkemPre::new_hybrid(&ek);
    let (ct, ss) = HybridKem::encap(&Dhkem, &mut rng, &ek);
    assert_eq!(HybridKem::decap(&pre, &dk, &ct), ss);
    let (ct, ss) = HybridKem::encap(&pre, &mut rng, &ek);
    assert_eq!(HybridKem::decap(&Dhkem, &dk, &ct), ss);
}

#[test]
fn end_to_end() {
    let mut rng = rand::thread_rng();
    let (dk, ek) = HybridKem::<X25519, MlKem>::generate(&mut rng);

    let (ct_1, ss_1) = HybridKem::encap(&Dhkem, &mut rng, &ek);
    let (ct_2, ss_2) = HybridKem::encap(&Dhkem, &mut rng, &ek);
    assert_ne!(ct_1.t, ct_2.t);
    assert_ne!(ct_1.pq, ct_2.pq);
    assert_ne!(ss_1, ss_2);

    assert_eq!(HybridKem::decap(&Dhkem, &dk, &ct_1), ss_1);
    assert_eq!(HybridKem::decap(&Dhkem, &dk, &ct_2), ss_2);
}

#[test]
fn a_mismatched_combiner_gives_a_mismatched_secret() {
    let mut rng = rand::thread_rng();
    let (dk, ek) = HybridKem::<X25519, MlKem>::generate(&mut rng);
    let (ct, ss) = HybridKem::encap(&Chempat, &mut rng, &ek);
    assert_eq!(HybridKem::decap(&Chempat, &dk, &ct), ss);
    assert_ne!(HybridKem::decap(&KitchenSink, &dk, &ct), ss);
    assert_ne!(HybridKem::decap(&XWing, &dk, &ct), ss);
}

#[test]
fn a_tampered_ciphertext_gives_another_secret_without_failing() {
    let mut rng = rand::thread_rng();
    let (dk, ek) = HybridKem::<X25519, MlKem>::generate(&mut rng);
    let (mut ct, ss) = HybridKem::encap(&KitchenSink, &mut rng, &ek);
    ct.pq[17] ^= 0x80;
    let first = HybridKem::decap(&KitchenSink, &dk, &ct);
    let second = HybridKem::decap(&KitchenSink, &dk, &ct);
    assert_ne!(first, ss);
    assert_eq!(first, second);
}

#[test]
fn encap_with_on_fixed_values() {
    // X25519 on both sides: every key, ciphertext and secret is 32 plain bytes.
    let ek: EncapsulationKey<X25519, X25519> = EncapsulationKey { t: [0x01; 32], pq: [0x02; 32] };
    let (ct, ss) =
        HybridKem::encap_with(&KitchenSink, &ek, [0x04; 32], &[0x03; 32], [0x06; 32], &[0x05; 32]);
    assert_eq!(ct.t, [0x04; 32]);
    assert_eq!(ct.pq, [0x06; 32]);
    assert_eq!(
        ss,
        [
            0x52, 0x64, 0xa6, 0xbf, 0x8b, 0x5b, 0x55, 0x5c, 0x85, 0x51, 0x68, 0xbd, 0x47, 0x52,
            0x86, 0x8a, 0xbe, 0x7a, 0x03, 0x67, 0xe7, 0x9e, 0x95, 0x8d, 0x72, 0x5e, 0xae, 0xd4,
            0x51, 0xa7, 0x19, 0xf1
        ]
    );

    let (_, ss) =
        HybridKem::encap_with(&Chempat, &ek, [0x04; 32], &[0x03; 32], [0x06; 32], &[0x05; 32]);
    assert_eq!(
        ss,
        [
            0x2e, 0x20, 0xae, 0x32, 0xd5, 0x69, 0x2b, 0x9a, 0x75, 0xf9, 0x58, 0xaa, 0x56, 0x09,
            0xc7, 0xe6, 0x6c, 0xed, 0xf4, 0xfc, 0x55, 0xfb, 0x8b, 0xaa, 0x54, 0xe3, 0xc1, 0x3f,
            0x97, 0xce, 0xf7, 0x1a
        ]
    );

    let (_, ss) =
        HybridKem::encap_with(&XWing, &ek, [0x04; 32], &[0x03; 32], [0x06; 32], &[0x05; 32]);
    assert_eq!(
        ss,
        [
            0xa7, 0xa7, 0xa8, 0x37, 0x3d, 0x72, 0x9d, 0x46, 0x5f, 0x51, 0x3c, 0x53, 0x71, 0x8a,
            0x47, 0xd4, 0x65, 0xd3, 0x64, 0x63, 0xdd, 0xca, 0x11, 0x51, 0x71, 0xcb, 0xbe, 0xc1,
            0x61, 0x2e, 0xc0, 0xed
        ]
    );
}

#[test]
fn decap_binds_the_named_slots() {
    // X25519 on both sides, with the first ladder vector of RFC 7748 as the
    // classical component.
    let scalar: [u8; 32] = [
        0xa5, 0x46, 0xe3, 0x6b, 0xf0, 0x52, 0x7c, 0x9d, 0x3b, 0x16, 0x15, 0x4b, 0x82, 0x46, 0x5e,
        0xdd, 0x62, 0x14, 0x4c, 0x0a, 0xc1, 0xfc, 0x5a, 0x18, 0x50, 0x6a, 0x22, 0x44, 0xba, 0x44,
        0x9a, 0xc4,
    ];
    let point: [u8; 32] = [
        0xe6, 0xdb, 0x68, 0x67, 0x58, 0x30, 0x30, 0xdb, 0x35, 0x94, 0xc1, 0xa4, 0x24, 0xb1, 0x5f,
        0x7c, 0x72, 0x66, 0x24, 0xec, 0x26, 0xb3, 0x35, 0x3b, 0x10, 0xa9, 0x03, 0xa6, 0xd0, 0xab,
        0x1c, 0x4c,
    ];
    let shared: [u8; 32] = [
        0xc3, 0xda, 0x55, 0x37, 0x9d, 0xe9, 0xc6, 0x90, 0x8e, 0x94, 0xea, 0x4d, 0xf2, 0x8d, 0x08,
        0x4f, 0x32, 0xec, 0xcf, 0x03, 0x49, 0x1c, 0x71, 0xf7, 0x54, 0xb4, 0x07, 0x55, 0x77, 0xa2,
        0x85, 0x52,
    ];
    let mut rng = rand::thread_rng();
    let (dk_pq, ek_pq) = X25519::generate(&mut rng);
    let (ct_pq, ss_pq) = X25519::encap(&mut rng, &ek_pq);

    let ek_t = [0x07; 32];
    let dk: DecapsulationKey<X25519, X25519> = DecapsulationKey {
        t: x25519_dalek::StaticSecret::from(scalar),
        pq: dk_pq,
        ek: EncapsulationKey { t: ek_t, pq: ek_pq },
    };
    let ct: Ciphertext<X25519, X25519> = Ciphertext { t: point, pq: ct_pq };

    // The key bytes that are bound are those embedded in the decapsulation key.
    assert_eq!(
        HybridKem::decap(&KitchenSink, &dk, &ct),
        hash(&[&ek_t, &ek_pq, &shared, &point, &ss_pq, &ct_pq])
    );
    assert_eq!(
        HybridKem::decap(&DhkemHalf, &dk, &ct),
        hash(&[&hash(&[&shared, &point, &ek_t]), &ss_pq])
    );
}

#[test]
fn new_hybrid_is_seeded_from_the_key_bytes() {
    let mut rng = rand::thread_rng();
    let (_, ek) = HybridKem::<X25519, MlKem>::generate(&mut rng);
    let pre = DhkemPre::new_hybrid(&ek);
    let plain = Dhkem.combine(b"s", b"c", &ek.t, b"S", b"C", ek.pq.as_bytes());
    assert_eq!(pre.combine(b"s", b"c", b"", b"S", b"C", b""), plain);
    let unseeded = Dhkem.combine(b"s", b"c", b"", b"S", b"C", b"");
    assert_ne!(pre.combine(b"s", b"c", b"", b"S", b"C", b""), unseeded);
}
