//! Keys, notes, and the Poseidon hashes that bind them.
use vstd::prelude::*;
use ark_bls12_381::Fr;
use ark_ff::{BigInteger, PrimeField};
use ark_std::rand::rngs::StdRng;
use crate::field::{fr_rand, fr_rand_draw, fr_rand_next, FieldElement};

verus! {

/// Poseidon hash of two field elements (`r14_sdk::hash2`), over the
/// canonical encodings of its arguments and result.
pub uninterp spec fn poseidon_hash2(a: Seq<u8>, b: Seq<u8>) -> Seq<u8>;

/// Owner hash of a secret key (`r14_sdk::owner_hash`).
pub uninterp spec fn poseidon_owner_hash(secret: Seq<u8>) -> Seq<u8>;

/// Commitment to a note (`r14_sdk::commitment`).
pub uninterp spec fn poseidon_commitment(value: u64, app_tag: u32, owner: Seq<u8>, nonce: Seq<u8>) -> Seq<u8>;

/// Nullifier of a note nonce under a secret key (`r14_sdk::nullifier`).
pub uninterp spec fn poseidon_nullifier(secret: Seq<u8>, nonce: Seq<u8>) -> Seq<u8>;

/// A spending key.
#[derive(Clone, Copy, Debug, PartialEq, Eq)]
pub struct SecretKey(pub FieldElement);

/// The public identifier of a key holder: the Poseidon hash of the key.
#[derive(Clone, Copy, Debug, PartialEq, Eq)]
pub struct OwnerHash(pub FieldElement);

/// The tag that marks a note as spent.
#[derive(Clone, Copy, Debug, PartialEq, Eq)]
pub struct Nullifier(pub FieldElement);

/// A private note: an amount, an application tag, its owner's hash and a
/// random nonce.
#[derive(Clone, Copy, Debug, PartialEq, Eq)]
pub struct Note {
    pub value: u64,
    pub app_tag: u32,
    pub owner: FieldElement,
    pub nonce: FieldElement,
}

impl SecretKey {
    /// A freshly drawn key (`SecretKey::random`): the field element that
    /// `Fr::rand` draws from the generator's state.
    pub fn random(rng: &mut StdRng) -> (sk: SecretKey)
        ensures
            sk.0@ == fr_rand_draw(*old(rng)),
            *final(rng) == fr_rand_next(*old(rng)),
    {
        sdk_secret_key_random(rng)
    }
}

impl Note {
    /// A note with a freshly drawn nonce (`Note::new`): the element that
    /// `Fr::rand` draws from the generator's state.
    pub fn new(value: u64, app_tag: u32, owner: FieldElement, rng: &mut StdRng) -> (n: Note)
        ensures
            n.value == value,
            n.app_tag == app_tag,
            n.owner == owner,
            n.nonce@ == fr_rand_draw(*old(rng)),
            *final(rng) == fr_rand_next(*old(rng)),
    {
        sdk_note_new(value, app_tag, owner, rng)
    }

    /// A note with the given nonce (`Note::with_nonce`).
    pub fn with_nonce(value: u64, app_tag: u32, owner: FieldElement, nonce: FieldElement) -> (n: Note)
        ensures
            n == (Note { value, app_tag, owner, nonce }),
    {
        Note { value, app_tag, owner, nonce }
    }

    /// The Poseidon commitment of this note.
    pub open spec fn commitment_spec(self) -> Seq<u8> {
        poseidon_commitment(self.value, self.app_tag, self.owner@, self.nonce@)
    }
}

/// The owner hash of a key.
pub fn owner_hash(sk: &SecretKey) -> (h: OwnerHash)
    ensures
        h.0@ == poseidon_owner_hash(sk.0@),
{
    sdk_owner_hash(sk)
}

/// The commitment that publishes a note without revealing it.
pub fn commitment(note: &Note) -> (cm: FieldElement)
    ensures
        cm@ == note.commitment_spec(),
{
    sdk_commitment(note)
}

/// The nullifier that spends a note with the given nonce.
pub fn nullifier(sk: &SecretKey, nonce: &FieldElement) -> (nf: Nullifier)
    ensures
        nf.0@ == poseidon_nullifier(sk.0@, nonce@),
{
    sdk_nullifier(sk, nonce)
}

/// Poseidon hash of two field elements.
pub fn hash2(a: &FieldElement, b: &FieldElement) -> (h: FieldElement)
    ensures
        h@ == poseidon_hash2(a@, b@),
{
    sdk_hash2(a, b)
}

/// Law: commitments, nullifiers and owner hashes depend on nothing but
/// their inputs; equal inputs give equal results.
pub proof fn law_hashes_deterministic(a: Note, b: Note, sk_a: SecretKey, sk_b: SecretKey)
    requires
        a.value == b.value,
        a.app_tag == b.app_tag,
        a.owner@ == b.owner@,
        a.nonce@ == b.nonce@,
        sk_a.0@ == sk_b.0@,
    ensures
        a.commitment_spec() == b.commitment_spec(),
        poseidon_nullifier(sk_a.0@, a.nonce@) == poseidon_nullifier(sk_b.0@, b.nonce@),
        poseidon_owner_hash(sk_a.0@) == poseidon_owner_hash(sk_b.0@),
{
}

/// `SecretKey::random`, which is `SecretKey(Fr::rand(rng))`: the key and
/// the generator's state after the draw are named `fr_rand` of its state
/// before the draw.
#[verifier::external_body]
fn sdk_secret_key_random(rng: &mut StdRng) -> (sk: SecretKey)
    ensures
        (sk.0@, *final(rng)) == fr_rand(*old(rng)),
{
    let sk = r14_sdk::SecretKey::random(rng);
    SecretKey(FieldElement { bytes: sk.0.into_bigint().to_bytes_be().try_into().unwrap() })
}

/// `Note::new`: keeps the value, tag and owner and draws the nonce with
/// `Fr::rand(rng)`, its one use of the generator: nonce and the generator's
/// state after the draw are named `fr_rand` of its state before the draw.
#[verifier::external_body]
fn sdk_note_new(value: u64, app_tag: u32, owner: FieldElement, rng: &mut StdRng) -> (n: Note)
    ensures
        n.value == value,
        n.app_tag == app_tag,
        n.owner == owner,
        (n.nonce@, *final(rng)) == fr_rand(*old(rng)),
{
    let n = r14_sdk::Note::new(value, app_tag, Fr::from_be_bytes_mod_order(&owner.bytes), rng);
    let nonce = FieldElement { bytes: n.nonce.into_bigint().to_bytes_be().try_into().unwrap() };
    Note { value: n.value, app_tag: n.app_tag, owner, nonce }
}

/// `r14_sdk::owner_hash`: its result is named `poseidon_owner_hash`.
#[verifier::external_body]
fn sdk_owner_hash(sk: &SecretKey) -> (h: OwnerHash)
    ensures
        h.0@ == poseidon_owner_hash(sk.0@),
{
    let h = r14_sdk::owner_hash(&r14_sdk::SecretKey(Fr::from_be_bytes_mod_order(&sk.0.bytes)));
    OwnerHash(FieldElement { bytes: h.0.into_bigint().to_bytes_be().try_into().unwrap() })
}

/// `r14_sdk::commitment`: its result is named `poseidon_commitment`.
#[verifier::external_body]
fn sdk_commitment(note: &Note) -> (cm: FieldElement)
    ensures
        cm@ == poseidon_commitment(note.value, note.app_tag, note.owner@, note.nonce@),
{
    let owner = Fr::from_be_bytes_mod_order(&note.owner.bytes);
    let nonce = Fr::from_be_bytes_mod_order(&note.nonce.bytes);
    let cm = r14_sdk::commitment(&r14_sdk::Note::with_nonce(note.value, note.app_tag, owner, nonce));
    FieldElement { bytes: cm.into_bigint().to_bytes_be().try_into().unwrap() }
}

/// `r14_sdk::nullifier`: its result is named `poseidon_nullifier`.
#[verifier::external_body]
fn sdk_nullifier(sk: &SecretKey, nonce: &FieldElement) -> (nf: Nullifier)
    ensures
        nf.0@ == poseidon_nullifier(sk.0@, nonce@),
{
    let sk = r14_sdk::SecretKey(Fr::from_be_bytes_mod_order(&sk.0.bytes));
    let nf = r14_sdk::nullifier(&sk, &Fr::from_be_bytes_mod_order(&nonce.bytes));
    Nullifier(FieldElement { bytes: nf.0.into_bigint().to_bytes_be().try_into().unwrap() })
}

/// `r14_sdk::hash2`: its result is named `poseidon_hash2`.
#[verifier::external_body]
fn sdk_hash2(a: &FieldElement, b: &FieldElement) -> (h: FieldElement)
    ensures
        h@ == poseidon_hash2(a@, b@),
{
    let h = r14_sdk::hash2(Fr::from_be_bytes_mod_order(&a.bytes), Fr::from_be_bytes_mod_order(&b.bytes));
    FieldElement { bytes: h.into_bigint().to_bytes_be().try_into().unwrap() }
}

} // verus!
