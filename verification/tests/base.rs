use kem_combiners::base::{
    AsBytes, BaseKem, ClassicMcEliece, MlKem, MlKemEncapsulationKey, McElieceEncapsulationKey,
    X25519,
};
use ml_kem::kem::Encapsulate;
use ml_kem::{EncodedSizeUser, KemCore, MlKem768};

fn test_encap_decap<K: BaseKem>() {
    let mut rng = rand::thread_rng();
    let (dk, ek) = K::generate(&mut rng);
    let (ct, ss_e) = K::encap(&mut rng, &ek);
    let ss_d = K::decap(&dk, &ct);
    assert_eq!(ss_e.as_bytes(), ss_d.as_bytes());
}

#[test]
fn x25519() {
    test_encap_decap::<X25519>();
}

#[test]
fn ml_kem() {
    test_encap_decap::<MlKem>();
}

#[test]
fn classic_mceliece() {
    test_encap_decap::<ClassicMcEliece>();
}

#[test]
fn an_array_serializes_to_itself() {
    let a: [u8; 4] = [9, 8, 7, 6];
    assert_eq!(a.as_bytes(), &[9u8, 8, 7, 6][..]);
    let empty: [u8; 0] = [];
    assert_eq!(empty.as_bytes().len(), 0);
}

#[test]
fn x25519_generate_gives_the_public_key_of_the_secret() {
    let mut rng = rand::thread_rng();
    let (dk, ek) = X25519::generate(&mut rng);
    assert_eq!(ek, x25519_dalek::PublicKey::from(&dk).to_bytes());
    assert_ne!(ek, dk.to_bytes());
}

#[test]
fn x25519_decap_is_the_diffie_hellman_function() {
    // The first ladder vector of RFC 7748.
    let scalar: [u8; 32] = [
        0xa5, 0x46, 0xe3, 0x6b, 0xf0, 0x52, 0x7c, 0x9d, 0x3b, 0x16, 0x15, 0x4b, 0x82, 0x46, 0x5e,
        0xdd, 0x62, 0x14, 0x4c, 0x0a, 0xc1, 0xfc, 0x5a, 0x18, 0x50, 0x6a, 0x22, 0x44, 0xba, 0x44,
        0x9a, 0xc4,
    ];
    let point: [u8; 32] = [
        0xe6, 0xdb, 0x68, 0x67, 0x58, 0x30, 0x30, 0xdb, 0x35, 0x94, 0xc1, 0xa4, 0x24, 0xb1, 0x5f,
        0x7c, 0x72, 0x66, 0x24, 0xec, 0x26, 0xb3, 0x35, 0x3b, 0x10, 0xa9, 0x03, 0xa6, 0xd0, 0xab,
        0x1c, 0x4c,
    ];
    let expected: [u8; 32] = [
        0xc3, 0xda, 0x55, 0x37, 0x9d, 0xe9, 0xc6, 0x90, 0x8e, 0x94, 0xea, 0x4d, 0xf2, 0x8d, 0x08,
        0x4f, 0x32, 0xec, 0xcf, 0x03, 0x49, 0x1c, 0x71, 0xf7, 0x54, 0xb4, 0x07, 0x55, 0x77, 0xa2,
        0x85, 0x52,
    ];
    let dk = x25519_dalek::StaticSecret::from(scalar);
    assert_eq!(X25519::decap(&dk, &point), expected);
}

#[test]
fn x25519_encap_is_fresh_each_time() {
    let mut rng = rand::thread_rng();
    let (dk, ek) = X25519::generate(&mut rng);
    let (ct_1, ss_1) = X25519::encap(&mut rng, &ek);
    let (ct_2, ss_2) = X25519::encap(&mut rng, &ek);
    assert_ne!(ct_1, ct_2);
    assert_ne!(ss_1, ss_2);
    assert_ne!(ct_1, ek);
    assert_ne!(ss_1, ct_1);
    assert_eq!(X25519::decap(&dk, &ct_1), ss_1);
    assert_eq!(X25519::decap(&dk, &ct_2), ss_2);
}

#[test]
fn x25519_encap_agrees_with_the_receiver() {
    // The receiver's side, computed with the outside crate alone.
    let mut rng = rand::thread_rng();
    let dk = x25519_dalek::StaticSecret::random_from_rng(&mut rng);
    let ek = x25519_dalek::PublicKey::from(&dk);
    let (ct, ss) = X25519::encap(&mut rng, &ek.to_bytes());
    let recovered = dk.diffie_hellman(&x25519_dalek::PublicKey::from(ct));
    assert_eq!(ss, recovered.to_bytes());
}

#[test]
fn ml_kem_key_bytes_are_the_encoding() {
    let mut rng = rand::thread_rng();
    let (dk, ek) = MlKem::generate(&mut rng);
    assert_eq!(ek.as_bytes().len(), 1184);

    // Decoded by the outside crate alone, the bytes give a key that the
    // decapsulation key answers to.
    let encoded: ml_kem::Encoded<<MlKem768 as KemCore>::EncapsulationKey> =
        hybrid_array::Array::try_from(ek.as_bytes()).unwrap();
    let decoded = <MlKem768 as KemCore>::EncapsulationKey::from_bytes(&encoded);
    let (ct, ss) = decoded.encapsulate(&mut rng).unwrap();
    let ct_bytes: [u8; 1088] = ct.into();
    let ss_bytes: [u8; 32] = ss.into();
    assert_eq!(MlKem::decap(&dk, &ct_bytes), ss_bytes);
}

#[test]
fn ml_kem_new_stores_the_encoding_of_the_key() {
    let mut rng = rand::thread_rng();
    let (dk, ek) = kem_combiners::ml_kem::generate(&mut rng);
    let encoding = ek.pq_bytes;
    let key = MlKemEncapsulationKey::new(ek.pq);
    assert_eq!(key.as_bytes(), &encoding[..]);
    assert_ne!(key.as_bytes(), &[0u8; 1184][..]);

    let (ct, ss) = MlKem::encap(&mut rng, &key);
    assert_eq!(MlKem::decap(&dk.pq, &ct), ss);
}

#[test]
fn ml_kem_clone_keeps_the_bytes() {
    let mut rng = rand::thread_rng();
    let (dk, ek) = MlKem::generate(&mut rng);
    let copy: MlKemEncapsulationKey = ek.clone();
    assert_eq!(copy.as_bytes(), ek.as_bytes());
    let (ct, ss) = MlKem::encap(&mut rng, &copy);
    assert_eq!(MlKem::decap(&dk, &ct), ss);
}

#[test]
fn ml_kem_rejects_implicitly() {
    let mut rng = rand::thread_rng();
    let (dk, ek) = MlKem::generate(&mut rng);
    let (mut ct, ss) = MlKem::encap(&mut rng, &ek);
    ct[0] ^= 1;
    let first = MlKem::decap(&dk, &ct);
    let second = MlKem::decap(&dk, &ct);
    assert_ne!(first, ss);
    assert_eq!(first, second);
}

#[test]
fn ml_kem_encap_is_under_the_key_it_is_given() {
    let mut rng = rand::thread_rng();
    let (dk, ek) = MlKem::generate(&mut rng);
    let (other_dk, other_ek) = MlKem::generate(&mut rng);
    let (ct, ss) = MlKem::encap(&mut rng, &ek);
    assert_eq!(MlKem::decap(&dk, &ct), ss);
    assert_ne!(MlKem::decap(&other_dk, &ct), ss);
    let (other_ct, other_ss) = MlKem::encap(&mut rng, &other_ek);
    assert_eq!(MlKem::decap(&other_dk, &other_ct), other_ss);
    assert_ne!(MlKem::decap(&dk, &other_ct), other_ss);
}

#[test]
fn ml_kem_encap_is_fresh_each_time() {
    let mut rng = rand::thread_rng();
    let (dk, ek) = MlKem::generate(&mut rng);
    let (ct_1, ss_1) = MlKem::encap(&mut rng, &ek);
    let (ct_2, ss_2) = MlKem::encap(&mut rng, &ek);
    assert_ne!(ct_1, ct_2);
    assert_ne!(ss_1, ss_2);
    assert_eq!(MlKem::decap(&dk, &ct_1), ss_1);
    assert_eq!(MlKem::decap(&dk, &ct_2), ss_2);
}

#[test]
fn classic_mceliece_key_bytes_and_clone() {
    let mut rng = rand::thread_rng();
    let (dk, ek) = ClassicMcEliece::generate(&mut rng);
    assert_eq!(ek.as_bytes().len(), 261120);
    let copy: McElieceEncapsulationKey = ek.clone();
    assert_eq!(copy.as_bytes(), ek.as_bytes());

    let (ct, ss) = ClassicMcEliece::encap(&mut rng, &copy);
    let (ct_2, ss_2) = ClassicMcEliece::encap(&mut rng, &ek);
    assert_ne!(ct, ct_2);
    assert_ne!(ss, ss_2);
    assert_eq!(ClassicMcEliece::decap(&dk, &ct), ss);
}
