use ark_std::rand::{rngs::StdRng, SeedableRng};
use r14_examples::field::FieldElement;
use r14_examples::merkle::MerklePath;
use r14_examples::notes::{commitment, nullifier, owner_hash, Note, SecretKey};
use r14_examples::prove::{prove, serialize_proof_for_soroban, setup, verify_offchain};
use r14_examples::transfer::split_value;

fn test_rng() -> StdRng {
    StdRng::seed_from_u64(12345)
}

#[test]
fn keygen_produces_distinct_owners() {
    let mut rng = test_rng();
    let sk_a = SecretKey::random(&mut rng);
    let sk_b = SecretKey::random(&mut rng);
    let owner_a = owner_hash(&sk_a);
    let owner_b = owner_hash(&sk_b);
    assert_ne!(owner_a.0, owner_b.0, "two keys must produce different owners");
    assert!(!owner_a.0.is_zero());
    assert!(!owner_b.0.is_zero());
}

#[test]
fn commitment_is_deterministic() {
    let mut rng = test_rng();
    let sk = SecretKey::random(&mut rng);
    let owner = owner_hash(&sk);
    let note = Note::new(1000, 1, owner.0, &mut rng);
    let cm1 = commitment(&note);
    let cm2 = commitment(&note);
    assert_eq!(cm1, cm2, "same note must produce same commitment");
    assert!(!cm1.is_zero());
}

#[test]
fn different_notes_different_commitments() {
    let mut rng = test_rng();
    let sk = SecretKey::random(&mut rng);
    let owner = owner_hash(&sk);
    let note_a = Note::new(1000, 1, owner.0, &mut rng);
    let note_b = Note::new(1000, 1, owner.0, &mut rng);
    // different nonces → different commitments
    assert_ne!(commitment(&note_a), commitment(&note_b));
}

#[test]
fn nullifier_derived_correctly() {
    let mut rng = test_rng();
    let sk = SecretKey::random(&mut rng);
    let note = Note::new(500, 1, owner_hash(&sk).0, &mut rng);
    let nf = nullifier(&sk, &note.nonce);
    assert!(!nf.0.is_zero());
    // same inputs → same nullifier
    let nf2 = nullifier(&sk, &note.nonce);
    assert_eq!(nf.0, nf2.0);
}

#[test]
fn transfer_proof_verifies() {
    let mut rng = test_rng();
    let sk_a = SecretKey::random(&mut rng);
    let owner_a = owner_hash(&sk_a);
    let sk_b = SecretKey::random(&mut rng);
    let owner_b = owner_hash(&sk_b);

    let note_a = Note::new(1000, 1, owner_a.0, &mut rng);

    let path = MerklePath::offline();

    let out_b = Note::new(300, 1, owner_b.0, &mut rng);
    let out_change = Note::new(700, 1, owner_a.0, &mut rng);

    let (pk, vk) = setup(&mut StdRng::seed_from_u64(42));
    let (proof, pi) = prove(&pk, &sk_a, &note_a, &path, &out_b, &out_change, &mut rng);

    assert!(verify_offchain(&vk, &proof, &pi), "proof must verify");
}

#[test]
fn transfer_balances_sum_correctly() {
    let deposit = 1000u64;
    let transfer = 300u64;
    let (sent, change) = split_value(deposit, transfer);
    assert_eq!(sent, transfer);
    assert_eq!(change, 700);
    assert_eq!(transfer + change, deposit, "value must be conserved");
}

#[test]
fn proof_serialization_non_empty() {
    let mut rng = test_rng();
    let sk = SecretKey::random(&mut rng);
    let owner = owner_hash(&sk);

    let note = Note::new(500, 1, owner.0, &mut rng);
    let path = MerklePath::offline();
    let out_0 = Note::new(200, 1, owner.0, &mut rng);
    let out_1 = Note::new(300, 1, owner.0, &mut rng);

    let (pk, _vk) = setup(&mut StdRng::seed_from_u64(42));
    let (proof, pi) = prove(&pk, &sk, &note, &path, &out_0, &out_1, &mut rng);
    let (sp, pub_inputs) = serialize_proof_for_soroban(&proof, &pi.to_vec());

    assert!(!sp.a.is_empty(), "proof.a must be non-empty");
    assert!(!sp.b.is_empty(), "proof.b must be non-empty");
    assert!(!sp.c.is_empty(), "proof.c must be non-empty");
    assert!(!pub_inputs.is_empty(), "public inputs must be non-empty");
}

#[test]
fn hex_roundtrip() {
    let mut rng = test_rng();
    let sk = SecretKey::random(&mut rng);
    let owner = owner_hash(&sk);
    let hex = owner.0.to_hex();
    let recovered = FieldElement::from_hex(&hex).unwrap();
    assert_eq!(owner.0, recovered);
}
