use ark_std::rand::{rngs::StdRng, SeedableRng};
use r14_examples::field::FieldElement;
use r14_examples::notes::hash2;
use r14_examples::oracle::{mock_tls_oracle, range_claim_holds};

fn test_rng() -> StdRng {
    StdRng::seed_from_u64(99999)
}

#[test]
fn commitment_is_non_zero() {
    let mut rng = test_rng();
    let value = FieldElement::from_u64(15000u64);
    let blinding = FieldElement::random(&mut rng);
    let commit = hash2(&value, &blinding);
    assert!(!commit.is_zero(), "Poseidon commitment must be non-zero");
}

#[test]
fn main_commitment_is_deterministic() {
    let mut rng = test_rng();
    let value = FieldElement::from_u64(15000u64);
    let blinding = FieldElement::random(&mut rng);
    let c1 = hash2(&value, &blinding);
    let c2 = hash2(&value, &blinding);
    assert_eq!(c1, c2, "same inputs must produce same commitment");
}

#[test]
fn different_blindings_different_commitments() {
    let mut rng = test_rng();
    let value = FieldElement::from_u64(15000u64);
    let b1 = FieldElement::random(&mut rng);
    let b2 = FieldElement::random(&mut rng);
    let c1 = hash2(&value, &b1);
    let c2 = hash2(&value, &b2);
    assert_ne!(c1, c2, "different blindings must produce different commitments");
}

#[test]
fn different_values_different_commitments() {
    let mut rng = test_rng();
    let blinding = FieldElement::random(&mut rng);
    let c1 = hash2(&FieldElement::from_u64(15000u64), &blinding);
    let c2 = hash2(&FieldElement::from_u64(10000u64), &blinding);
    assert_ne!(c1, c2, "different values must produce different commitments");
}

#[test]
fn commitment_hides_value() {
    // commitment should not equal the raw value — Poseidon mixes it
    let mut rng = test_rng();
    let value = FieldElement::from_u64(15000u64);
    let blinding = FieldElement::random(&mut rng);
    let commit = hash2(&value, &blinding);
    assert_ne!(commit, value, "commitment must not equal raw value");
    assert_ne!(commit, blinding, "commitment must not equal blinding");
}

#[test]
fn range_check_logic() {
    let oracle_value = 15000u64;
    let threshold = 10000u64;
    assert!(range_claim_holds(oracle_value, threshold), "15000 > 10000 must hold");
    assert!(!range_claim_holds(5000u64, threshold), "5000 > 10000 must not hold");
}

#[test]
fn mock_oracle_returns_expected() {
    let oracle = mock_tls_oracle();
    assert_eq!(oracle.value, 15000);
    assert_eq!(oracle.source, "api.examplebank.com/balance");
    assert_eq!(oracle.field, "account_balance_usd");
}
