//! End-to-end tests of the proof types against the real threshold scheme.

use std::collections::hash_map::DefaultHasher;
use std::hash::{Hash, Hasher};

use quorum_proof::{Proof, ProofError, ProofShare, PublicKey, PublicKeySet, SecretKeyShare, Signature, SignatureShare};
use threshold_crypto::serde_impl::SerdeSecret;
use threshold_crypto::SecretKeySet;

fn lib_public_key(pk: &threshold_crypto::PublicKey) -> PublicKey {
    PublicKey::from_bytes(pk.to_bytes().to_vec()).unwrap()
}

fn lib_signature(sig: &threshold_crypto::Signature) -> Signature {
    Signature::from_bytes(sig.to_bytes().to_vec()).unwrap()
}

fn lib_key_set(pk_set: &threshold_crypto::PublicKeySet) -> PublicKeySet {
    PublicKeySet::from_bytes(bincode::serialize(pk_set).unwrap()).unwrap()
}

fn lib_secret_share(share: &threshold_crypto::SecretKeyShare) -> SecretKeyShare {
    SecretKeyShare::from_bytes(bincode::serialize(&SerdeSecret(share)).unwrap()).unwrap()
}

fn hash_of<T: Hash>(value: &T) -> u64 {
    let mut hasher = DefaultHasher::new();
    value.hash(&mut hasher);
    hasher.finish()
}

#[test]
fn verify_proof() {
    let sk = threshold_crypto::SecretKey::random();
    let public_key = lib_public_key(&sk.public_key());
    let data = "hello".to_string();
    let signature = lib_signature(&sk.sign(&data));
    let proof = Proof {
        public_key,
        signature,
    };
    assert!(proof.verify(&data.as_bytes()));
}

#[test]
fn proof_accepts_signed_payload_and_rejects_another() {
    let sk = threshold_crypto::SecretKey::random();
    let proof = Proof {
        public_key: lib_public_key(&sk.public_key()),
        signature: lib_signature(&sk.sign(b"hello")),
    };
    assert!(proof.verify(b"hello"));
    assert!(!proof.verify(b"goodbye"));
}

#[test]
fn proof_rejects_other_public_key() {
    let sk = threshold_crypto::SecretKey::random();
    let other = threshold_crypto::SecretKey::random();
    let signature = lib_signature(&sk.sign(b"hello"));
    let honest = Proof {
        public_key: lib_public_key(&sk.public_key()),
        signature: signature.clone(),
    };
    let swapped = Proof {
        public_key: lib_public_key(&other.public_key()),
        signature,
    };
    assert!(honest.verify(b"hello"));
    assert!(!swapped.verify(b"hello"));
}

#[test]
fn share_round_trip_for_every_index() {
    let mut rng = rand::thread_rng();
    let sk_set = SecretKeySet::random(2, &mut rng);
    let pk_set = sk_set.public_keys();
    for index in 0..5usize {
        let secret = lib_secret_share(&sk_set.secret_key_share(index));
        let share = ProofShare::new(lib_key_set(&pk_set), index, &secret, b"payload");
        assert!(share.verify(b"payload"));
    }
}

#[test]
fn share_of_member_two_verifies_and_mutated_index_fails() {
    let mut rng = rand::thread_rng();
    let sk_set = SecretKeySet::random(2, &mut rng);
    let pk_set = sk_set.public_keys();
    let secret = lib_secret_share(&sk_set.secret_key_share(2usize));
    let share = ProofShare::new(lib_key_set(&pk_set), 2, &secret, b"quorum-test");
    assert!(share.verify(b"quorum-test"));
    let mutated = ProofShare {
        public_key_set: share.public_key_set.clone(),
        index: 3,
        signature_share: share.signature_share.clone(),
    };
    assert!(!mutated.verify(b"quorum-test"));
}

#[test]
fn share_rejects_other_payload() {
    let mut rng = rand::thread_rng();
    let sk_set = SecretKeySet::random(1, &mut rng);
    let pk_set = sk_set.public_keys();
    let secret = lib_secret_share(&sk_set.secret_key_share(0usize));
    let share = ProofShare::new(lib_key_set(&pk_set), 0, &secret, b"signed");
    assert!(share.verify(b"signed"));
    assert!(!share.verify(b"unsigned"));
}

#[test]
fn cross_index_forgery_fails() {
    let mut rng = rand::thread_rng();
    let sk_set = SecretKeySet::random(2, &mut rng);
    let pk_set = sk_set.public_keys();
    let secret_of_one = lib_secret_share(&sk_set.secret_key_share(1usize));
    let forged = ProofShare::new(lib_key_set(&pk_set), 4, &secret_of_one, b"payload");
    assert!(!forged.verify(b"payload"));
}

#[test]
fn proof_codec_round_trip() {
    let sk = threshold_crypto::SecretKey::random();
    let proof = Proof {
        public_key: lib_public_key(&sk.public_key()),
        signature: lib_signature(&sk.sign(b"encoded payload")),
    };
    let bytes = proof.encode();
    let decoded = Proof::decode(bytes.as_slice()).unwrap();
    assert_eq!(decoded, proof);
    assert_eq!(hash_of(&decoded), hash_of(&proof));
    assert!(decoded.verify(b"encoded payload"));
}

#[test]
fn share_codec_round_trip() {
    let mut rng = rand::thread_rng();
    let sk_set = SecretKeySet::random(3, &mut rng);
    let pk_set = sk_set.public_keys();
    let secret = lib_secret_share(&sk_set.secret_key_share(5usize));
    let share = ProofShare::new(lib_key_set(&pk_set), 5, &secret, b"wire");
    let bytes = share.encode();
    let decoded = ProofShare::decode(bytes.as_slice()).unwrap();
    assert!(decoded == share);
    assert_eq!(hash_of(&decoded), hash_of(&share));
    assert!(decoded.verify(b"wire"));
}

#[test]
fn proof_decode_rejects_wrong_length() {
    assert_eq!(Proof::decode(&[]), Err(ProofError::MalformedKeyMaterial));
    assert_eq!(Proof::decode(&[7u8; 10]), Err(ProofError::MalformedKeyMaterial));
}

#[test]
fn proof_decode_rejects_invalid_group_elements() {
    let zeros = vec![0u8; 144];
    assert_eq!(Proof::decode(zeros.as_slice()), Err(ProofError::MalformedKeyMaterial));
}

#[test]
fn share_decode_rejects_corrupt_length_header() {
    let mut rng = rand::thread_rng();
    let sk_set = SecretKeySet::random(1, &mut rng);
    let pk_set = sk_set.public_keys();
    let secret = lib_secret_share(&sk_set.secret_key_share(0usize));
    let share = ProofShare::new(lib_key_set(&pk_set), 0, &secret, b"x");
    let mut bytes = share.encode();
    bytes[0] = bytes[0].wrapping_add(1);
    assert!(ProofShare::decode(bytes.as_slice()) == Err(ProofError::MalformedKeyMaterial));
    assert!(ProofShare::decode(&[]) == Err(ProofError::MalformedKeyMaterial));
}

#[test]
fn share_decode_rejects_corrupt_key_set() {
    let mut rng = rand::thread_rng();
    let sk_set = SecretKeySet::random(1, &mut rng);
    let pk_set = sk_set.public_keys();
    let secret = lib_secret_share(&sk_set.secret_key_share(0usize));
    let share = ProofShare::new(lib_key_set(&pk_set), 0, &secret, b"x");
    let mut bytes = share.encode();
    for b in bytes.iter_mut().skip(8).take(24) {
        *b = 0xff;
    }
    assert!(ProofShare::decode(bytes.as_slice()) == Err(ProofError::MalformedKeyMaterial));
}

#[test]
fn from_bytes_validates_each_kind_of_material() {
    assert_eq!(PublicKey::from_bytes(vec![1u8; 3]), Err(ProofError::MalformedKeyMaterial));
    assert_eq!(Signature::from_bytes(vec![0u8; 96]), Err(ProofError::MalformedKeyMaterial));
    assert_eq!(SignatureShare::from_bytes(vec![0u8; 96]), Err(ProofError::MalformedKeyMaterial));
    assert_eq!(
        PublicKeySet::from_bytes(b"not a key set".to_vec()).err(),
        Some(ProofError::MalformedKeyMaterial)
    );
    assert!(SecretKeyShare::from_bytes(vec![0xffu8; 3]).is_err());

    let sk = threshold_crypto::SecretKey::random();
    let pk = lib_public_key(&sk.public_key());
    assert_eq!(PublicKey::from_bytes(pk.to_bytes()), Ok(pk));
}

#[test]
fn group_public_key_matches_the_scheme() {
    let mut rng = rand::thread_rng();
    let sk_set = SecretKeySet::random(2, &mut rng);
    let pk_set = sk_set.public_keys();
    let key_set = lib_key_set(&pk_set);
    assert_eq!(key_set.public_key(), lib_public_key(&pk_set.public_key()));
}

#[test]
fn debug_rendering_shows_key_and_index_only() {
    let mut rng = rand::thread_rng();
    let sk_set = SecretKeySet::random(1, &mut rng);
    let pk_set = sk_set.public_keys();
    let secret = lib_secret_share(&sk_set.secret_key_share(2usize));
    let share = ProofShare::new(lib_key_set(&pk_set), 2, &secret, b"payload");
    let rendered = share.debug_string();
    assert!(rendered.starts_with("ProofShare { public_key: PublicKey("));
    assert!(rendered.ends_with("index: 2, .. }"));
    let long_hex = share
        .signature_share
        .to_bytes()
        .iter()
        .map(|b| format!("{:02x}", b))
        .collect::<String>();
    assert!(!rendered.contains(&long_hex));
}

#[test]
fn key_set_rejects_degenerate_empty_commitment() {
    // Eight zero bytes decode to a commitment with no coefficients, which has
    // no group public key; the library must refuse it at the boundary.
    assert_eq!(
        PublicKeySet::from_bytes(vec![0u8; 8]).err(),
        Some(ProofError::MalformedKeyMaterial)
    );
}

#[test]
fn key_set_rejects_trailing_bytes() {
    let mut rng = rand::thread_rng();
    let sk_set = SecretKeySet::random(1, &mut rng);
    let mut bytes = bincode::serialize(&sk_set.public_keys()).unwrap();
    assert!(PublicKeySet::from_bytes(bytes.clone()).is_ok());
    bytes.push(0);
    assert_eq!(
        PublicKeySet::from_bytes(bytes).err(),
        Some(ProofError::MalformedKeyMaterial)
    );
}
