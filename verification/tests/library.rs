use ark_std::rand::{rngs::StdRng, SeedableRng};
use r14_examples::field::FieldElement;
use r14_examples::merkle::{empty_root_hex, merkle_depth, merkle_root_hex, root_differs_from_empty, MerklePath};
use r14_examples::notes::{commitment, hash2, nullifier, owner_hash, Note, SecretKey};
use r14_examples::oracle::{commit_value, range_claim_holds, CLAIM_THRESHOLD};
use r14_examples::prove::{prove, serialize_proof_for_soroban, setup, verify_offchain};
use r14_examples::settings::{Settings, DEFAULT_INDEXER_URL, PLACEHOLDER};
use r14_examples::transfer::{prepare_transfer, try_prove_transfer, TransferError, DEMO_APP_TAG};
use r14_examples::wallet::{EntryError, NoteEntry};

const MODULUS_HEX: &str = "0x73eda753299d7d483339d80809a1d80553bda402fffe5bfeffffffff00000001";
const MODULUS_MINUS_ONE_HEX: &str = "0x73eda753299d7d483339d80809a1d80553bda402fffe5bfeffffffff00000000";

fn rng() -> StdRng {
    StdRng::seed_from_u64(2024)
}

#[test]
fn from_u64_is_big_endian() {
    let mut expected = [0u8; 32];
    expected[30] = 1;
    expected[31] = 2;
    assert_eq!(FieldElement::from_u64(258).to_bytes(), expected);
    assert!(FieldElement::from_u64(0).is_zero());
    assert!(!FieldElement::from_u64(1).is_zero());
    assert!(FieldElement::zero().equals(&FieldElement::from_u64(0)));
    assert!(!FieldElement::from_u64(7).equals(&FieldElement::from_u64(8)));
}

#[test]
fn to_hex_is_prefixed_lower_case() {
    let text = FieldElement::from_u64(42).to_hex();
    assert_eq!(text.len(), 66);
    assert_eq!(text, format!("0x{}2a", "0".repeat(62)));
    let big = FieldElement::from_hex(MODULUS_MINUS_ONE_HEX).unwrap();
    assert_eq!(big.to_hex(), MODULUS_MINUS_ONE_HEX);
}

#[test]
fn from_hex_reads_wallet_text() {
    let one = FieldElement::from_u64(1);
    assert_eq!(FieldElement::from_hex("01"), Some(one));
    assert_eq!(FieldElement::from_hex("0x01"), Some(one));
    assert_eq!(FieldElement::from_hex(""), Some(FieldElement::zero()));
    assert_eq!(FieldElement::from_hex("0x2A"), Some(FieldElement::from_u64(42)));
    // only the first 32 bytes are kept
    let long = format!("{}ff", "00".repeat(32));
    assert_eq!(FieldElement::from_hex(&long), Some(FieldElement::zero()));
}

#[test]
fn from_hex_rejects_bad_text() {
    assert_eq!(FieldElement::from_hex("zz"), None);
    assert_eq!(FieldElement::from_hex("abc"), None);
    assert_eq!(FieldElement::from_hex("0X01"), None);
    assert_eq!(FieldElement::from_hex(MODULUS_HEX), None);
    assert!(FieldElement::from_hex(MODULUS_MINUS_ONE_HEX).is_some());
}

#[test]
fn hex_roundtrip_of_random_elements() {
    let mut rng = rng();
    for _ in 0..10 {
        let e = FieldElement::random(&mut rng);
        assert_eq!(FieldElement::from_hex(&e.to_hex()), Some(e));
    }
}

#[test]
fn merkle_roots_of_the_note_tree() {
    assert_eq!(merkle_depth(), 20);
    let empty = empty_root_hex();
    assert_eq!(empty.len(), 64);
    assert_eq!(empty, merkle_root_hex(&[]));
    let leaf = FieldElement::from_u64(1);
    assert_ne!(merkle_root_hex(&[leaf]), empty);
    assert!(root_differs_from_empty(&[leaf]));
    assert!(!root_differs_from_empty(&[]));
}

#[test]
fn offline_path_repeats_the_empty_root() {
    let path = MerklePath::offline();
    let empty = FieldElement::from_hex(&empty_root_hex()).unwrap();
    assert_eq!(path.siblings.len(), 20);
    assert_eq!(path.indices.len(), 20);
    assert!(path.siblings.iter().all(|s| *s == empty));
    assert!(path.indices.iter().all(|b| !*b));
}

#[test]
fn notes_keep_their_fields() {
    let mut rng = rng();
    let owner = FieldElement::from_u64(5);
    let nonce = FieldElement::from_u64(6);
    let n = Note::with_nonce(10, 3, owner, nonce);
    assert_eq!((n.value, n.app_tag, n.owner, n.nonce), (10, 3, owner, nonce));
    let m = Note::new(11, 4, owner, &mut rng);
    assert_eq!((m.value, m.app_tag, m.owner), (11, 4, owner));
    let sk = SecretKey::random(&mut rng);
    assert_eq!(owner_hash(&sk), owner_hash(&sk));
    assert_ne!(owner_hash(&sk).0, sk.0);
    assert_ne!(commitment(&n), commitment(&Note::with_nonce(10, 3, owner, owner)));
    assert_ne!(nullifier(&sk, &nonce).0, nullifier(&sk, &owner).0);
    assert_ne!(hash2(&owner, &nonce), hash2(&nonce, &owner));
}

#[test]
fn wallet_entry_reads_back_as_its_note() {
    let mut rng = rng();
    let sk = SecretKey::random(&mut rng);
    let note = Note::new(1000, 1, owner_hash(&sk).0, &mut rng);
    let entry = NoteEntry::for_note(&note, None);
    assert_eq!(entry.value, 1000);
    assert_eq!(entry.app_tag, 1);
    assert_eq!(entry.owner, note.owner.to_hex());
    assert_eq!(entry.nonce, note.nonce.to_hex());
    assert_eq!(entry.commitment, commitment(&note).to_hex());
    assert_eq!(entry.index, None);
    assert!(!entry.spent);
    assert_eq!(entry.to_note(), Ok(note));
    let back = entry.to_note().unwrap();
    assert_eq!(commitment(&back).to_hex(), entry.commitment);
}

#[test]
fn simulated_deposit_sits_at_leaf_zero() {
    let mut rng = rng();
    let note = Note::new(1000, 1, FieldElement::from_u64(9), &mut rng);
    let mut entry = NoteEntry::for_note(&note, None);
    let before = entry.clone();
    entry.simulate_on_chain();
    assert_eq!(entry.index, Some(0));
    assert_eq!(NoteEntry { index: None, ..entry }, before);
}

#[test]
fn wallet_entry_errors() {
    let mut rng = rng();
    let note = Note::new(1000, 1, FieldElement::from_u64(9), &mut rng);
    let good = NoteEntry::for_note(&note, Some(0));
    let mut bad_owner = good.clone();
    bad_owner.owner = "0xnothex".to_string();
    bad_owner.nonce = "0xnothex".to_string();
    assert_eq!(bad_owner.to_note(), Err(EntryError::InvalidOwner));
    let mut bad_nonce = good.clone();
    bad_nonce.nonce = MODULUS_HEX.to_string();
    assert_eq!(bad_nonce.to_note(), Err(EntryError::InvalidNonce));
}

#[test]
fn transfer_plan_splits_the_note() {
    let mut rng = rng();
    let sk_a = SecretKey::random(&mut rng);
    let owner_a = owner_hash(&sk_a);
    let owner_b = owner_hash(&SecretKey::random(&mut rng));
    let note = Note::new(1000, 1, owner_a.0, &mut rng);
    let mut entry = NoteEntry::for_note(&note, None);
    entry.simulate_on_chain();
    let plan = prepare_transfer(&entry, 300, &owner_b, &owner_a, &mut rng).unwrap();
    assert_eq!(plan.consumed, note);
    assert_eq!(plan.to_recipient.value, 300);
    assert_eq!(plan.to_recipient.owner, owner_b.0);
    assert_eq!(plan.to_recipient.app_tag, DEMO_APP_TAG);
    assert_eq!(plan.change.value, 700);
    assert_eq!(plan.change.owner, owner_a.0);
    assert_eq!(plan.change.app_tag, DEMO_APP_TAG);
    assert_eq!(plan.path.siblings.len(), 20);
    let mut broken = entry.clone();
    broken.owner = "xyz".to_string();
    assert_eq!(prepare_transfer(&broken, 300, &owner_b, &owner_a, &mut rng).err(), Some(EntryError::InvalidOwner));
}

#[test]
fn proved_transfer_has_the_expected_public_inputs() {
    let mut rng = rng();
    let sk_a = SecretKey::random(&mut rng);
    let owner_a = owner_hash(&sk_a);
    let sk_b = SecretKey::random(&mut rng);
    let owner_b = owner_hash(&sk_b);
    let note = Note::new(1000, 1, owner_a.0, &mut rng);
    let entry = NoteEntry::for_note(&note, Some(0));
    let plan = prepare_transfer(&entry, 300, &owner_b, &owner_a, &mut rng).unwrap();
    let (pk, vk) = setup(&mut StdRng::seed_from_u64(42));

    assert_eq!(try_prove_transfer(&pk, &sk_b, &plan, &mut rng).err(), Some(TransferError::NotOwner));
    let mut uneven = plan.clone();
    uneven.change.value = 600;
    assert_eq!(try_prove_transfer(&pk, &sk_a, &uneven, &mut rng).err(), Some(TransferError::ValueMismatch));
    let mut retagged = plan.clone();
    retagged.change.app_tag = 2;
    assert_eq!(try_prove_transfer(&pk, &sk_a, &retagged, &mut rng).err(), Some(TransferError::TagMismatch));
    let mut short = plan.clone();
    short.path.siblings.pop();
    assert_eq!(try_prove_transfer(&pk, &sk_a, &short, &mut rng).err(), Some(TransferError::MalformedPath));

    let (proof, pi) = try_prove_transfer(&pk, &sk_a, &plan, &mut rng).unwrap();
    let mut root = commitment(&plan.consumed);
    for s in &plan.path.siblings {
        root = hash2(&root, s);
    }
    assert_eq!(pi.old_root, root);
    assert_eq!(pi.nullifier, nullifier(&sk_a, &note.nonce).0);
    assert_eq!(pi.out_commitment_0, commitment(&plan.to_recipient));
    assert_eq!(pi.out_commitment_1, commitment(&plan.change));
    assert!(verify_offchain(&vk, &proof, &pi));
    let mut forged = pi;
    forged.nullifier = FieldElement::from_u64(1);
    assert!(!verify_offchain(&vk, &proof, &forged));

    let (sp, inputs) = serialize_proof_for_soroban(&proof, &pi.to_vec());
    assert_eq!((sp.a.len(), sp.b.len(), sp.c.len()), (192, 384, 192));
    let bytes = proof.encoding();
    assert_eq!(bytes.len(), 384);
    let text: String = bytes.iter().map(|b| format!("{:02x}", b)).collect();
    assert_eq!(format!("{}{}{}", sp.a, sp.b, sp.c), text);
    assert_eq!(inputs.len(), 4);
    for (text, e) in inputs.iter().zip(pi.to_vec()) {
        assert_eq!(format!("0x{}", text), e.to_hex());
    }
    let again = prove(&pk, &sk_a, &plan.consumed, &plan.path, &plan.to_recipient, &plan.change, &mut rng).1;
    assert_eq!(again, pi);
}

#[test]
fn zktls_commitment_and_claim() {
    let mut rng = rng();
    let blinding = FieldElement::random(&mut rng);
    assert_eq!(commit_value(15000, &blinding), hash2(&FieldElement::from_u64(15000), &blinding));
    assert_ne!(commit_value(15000, &blinding), commit_value(15001, &blinding));
    assert_eq!(CLAIM_THRESHOLD, 10000);
    assert!(!range_claim_holds(10000, CLAIM_THRESHOLD));
    assert!(range_claim_holds(10001, CLAIM_THRESHOLD));
}

#[test]
fn settings_default_and_go_live() {
    let offline = Settings::from_given(None, None, None, None);
    assert_eq!(offline.indexer_url, DEFAULT_INDEXER_URL);
    assert_eq!(offline.stellar_secret, PLACEHOLDER);
    assert_eq!(offline.core_contract, PLACEHOLDER);
    assert_eq!(offline.transfer_contract, PLACEHOLDER);
    assert!(!offline.is_live());
    let half = Settings::from_given(None, Some("SSECRET".to_string()), None, None);
    assert!(!half.is_live());
    let live = Settings::from_given(
        Some("https://indexer".to_string()),
        Some("SSECRET".to_string()),
        Some("CCORE".to_string()),
        Some("CXFER".to_string()),
    );
    assert_eq!(live.indexer_url, "https://indexer");
    assert!(live.is_live());
}

#[test]
fn draws_depend_on_the_generator_state_alone() {
    let a = FieldElement::random(&mut StdRng::seed_from_u64(7));
    let b = FieldElement::random(&mut StdRng::seed_from_u64(7));
    assert_eq!(a, b);
    let sk = SecretKey::random(&mut StdRng::seed_from_u64(7));
    assert_eq!(sk.0, a);
    let mut rng = r14_examples::prove::seeded_rng(7);
    assert_eq!(FieldElement::random(&mut rng), a);
    assert_ne!(FieldElement::random(&mut rng), a);
}

#[test]
fn demo_keys_are_the_seeded_setup() {
    let (pk_a, vk_a) = r14_examples::prove::demo_setup();
    let (pk_b, vk_b) = setup(&mut StdRng::seed_from_u64(42));
    assert_eq!(format!("{:?}", vk_a), format!("{:?}", vk_b));
    assert_eq!(format!("{:?}", pk_a), format!("{:?}", pk_b));
}

#[test]
fn merkle_root_is_the_leftmost_path_fold() {
    let leaf = FieldElement::from_u64(12345);
    let mut zero = FieldElement::zero();
    let mut root = leaf;
    for _ in 0..20 {
        root = hash2(&root, &zero);
        zero = hash2(&zero, &zero);
    }
    assert_eq!(format!("0x{}", merkle_root_hex(&[leaf])), root.to_hex());
    assert_eq!(format!("0x{}", empty_root_hex()), zero.to_hex());
}

#[test]
fn note_nonce_is_the_generator_draw() {
    let owner = FieldElement::from_u64(3);
    let note = Note::new(5, 1, owner, &mut StdRng::seed_from_u64(11));
    assert_eq!(note.nonce, FieldElement::random(&mut StdRng::seed_from_u64(11)));
}

#[test]
fn transfer_notes_take_consecutive_draws() {
    let mut rng = rng();
    let sk = SecretKey::random(&mut rng);
    let owner = owner_hash(&sk);
    let entry = NoteEntry::for_note(&Note::new(1000, 1, owner.0, &mut rng), Some(0));
    let plan = prepare_transfer(&entry, 300, &owner, &owner, &mut StdRng::seed_from_u64(5)).unwrap();
    let mut draws = StdRng::seed_from_u64(5);
    assert_eq!(plan.to_recipient.nonce, FieldElement::random(&mut draws));
    assert_eq!(plan.change.nonce, FieldElement::random(&mut draws));
}
