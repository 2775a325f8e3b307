//! Groth16 proofs of private transfers, and their encoding for Soroban.
//!
//! Keys and proofs are held as their uncompressed arkworks encodings.
use vstd::prelude::*;
use ark_bls12_381::Fr;
use ark_ff::{BigInteger, PrimeField};
use ark_serialize::{CanonicalDeserialize, CanonicalSerialize};
use ark_std::rand::rngs::StdRng;
use ark_std::rand::SeedableRng;
use crate::field::{is_field_encoding, FieldElement};
use crate::hex::hex_encode;
use crate::merkle::{encodings, MerklePath};
use crate::notes::{poseidon_nullifier, poseidon_owner_hash, Note, SecretKey};

verus! {

/// Whether the Groth16 verifier accepts a proof for the given public
/// inputs under a verifying key (`prove::verify_offchain`), over their
/// encodings.
pub uninterp spec fn groth16_verifies(vk: Seq<u8>, proof: Seq<u8>, inputs: Seq<Seq<u8>>) -> bool;

/// The generator that `StdRng::seed_from_u64` makes of a seed.
pub uninterp spec fn seeded_generator(seed: u64) -> StdRng;

/// The uncompressed encodings of the proving and verifying keys that
/// `prove::setup` draws from a generator in the given state.
pub uninterp spec fn setup_keys(rng: StdRng) -> (Seq<u8>, Seq<u8>);

/// The uncompressed encoding of the verifying key that a proving key,
/// given by its uncompressed encoding, carries (`ProvingKey::vk`).
pub uninterp spec fn verifying_key_of(pk: Seq<u8>) -> Seq<u8>;

/// Proving key of the transfer circuit.
#[derive(Clone, Debug)]
pub struct ProvingKey {
    bytes: Vec<u8>,
}

/// Verifying key of the transfer circuit.
#[derive(Clone, Debug)]
pub struct VerifyingKey {
    bytes: Vec<u8>,
}

/// A Groth16 proof: the points `a` (G1), `b` (G2) and `c` (G1), each
/// uncompressed, one after the other.
#[derive(Debug)]
pub struct Proof {
    bytes: Vec<u8>,
}

impl View for ProvingKey {
    type V = Seq<u8>;

    closed spec fn view(&self) -> Seq<u8> {
        self.bytes@
    }
}

impl View for VerifyingKey {
    type V = Seq<u8>;

    closed spec fn view(&self) -> Seq<u8> {
        self.bytes@
    }
}

impl View for Proof {
    type V = Seq<u8>;

    closed spec fn view(&self) -> Seq<u8> {
        self.bytes@
    }
}

impl Proof {
    /// A proof is 96 + 192 + 96 bytes long.
    #[verifier::type_invariant]
    pub open spec fn well_sized(self) -> bool {
        self@.len() == 384
    }

    /// The proof's encoding: `a`, `b` and `c`, each uncompressed.
    pub fn encoding(&self) -> (bytes: &Vec<u8>)
        ensures
            bytes@ == self@,
            bytes@.len() == 384,
    {
        proof {
            use_type_invariant(self);
        }
        &self.bytes
    }
}

/// The public inputs of a transfer proof.
#[derive(Clone, Copy, Debug, PartialEq, Eq)]
pub struct PublicInputs {
    pub old_root: FieldElement,
    pub nullifier: FieldElement,
    pub out_commitment_0: FieldElement,
    pub out_commitment_1: FieldElement,
}

impl PublicInputs {
    /// The inputs in the order the circuit declares them.
    pub open spec fn encodings(self) -> Seq<Seq<u8>> {
        seq![self.old_root@, self.nullifier@, self.out_commitment_0@, self.out_commitment_1@]
    }

    /// The inputs as a list, in the circuit's order (`PublicInputs::to_vec`).
    pub fn to_vec(&self) -> (v: Vec<FieldElement>)
        ensures
            v@ == seq![self.old_root, self.nullifier, self.out_commitment_0, self.out_commitment_1],
            encodings(v@) == self.encodings(),
    {
        let v = vec![self.old_root, self.nullifier, self.out_commitment_0, self.out_commitment_1];
        proof {
            assert(encodings(v@) =~= self.encodings());
        }
        v
    }
}

/// A proof as hexadecimal text for Soroban.
#[derive(Clone, Debug, PartialEq, Eq)]
pub struct SerializedProof {
    pub a: String,
    pub b: String,
    pub c: String,
}

/// What the prover needs of a transfer so that its witness satisfies the
/// circuit: the key owns the consumed note, the created values add up to
/// the consumed value, every tag agrees, and the path has one sibling per
/// level of the tree.
pub open spec fn transfer_satisfiable(
    sk: SecretKey,
    consumed: Note,
    path: MerklePath,
    out_0: Note,
    out_1: Note,
) -> bool {
    &&& poseidon_owner_hash(sk.0@) == consumed.owner@
    &&& consumed.value == out_0.value + out_1.value
    &&& consumed.app_tag == out_0.app_tag
    &&& consumed.app_tag == out_1.app_tag
    &&& path.siblings@.len() == 20
    &&& path.indices@.len() >= 20
}

/// A generator seeded from the clock (`wallet::crypto_rng`): a generator
/// seeded with some 64-bit seed, the time of the call.
pub fn crypto_rng() -> (rng: StdRng)
    ensures
        exists|t: u64| rng == #[trigger] seeded_generator(t),
{
    sdk_crypto_rng()
}

/// A generator with a fixed seed (`StdRng::seed_from_u64`).
pub fn seeded_rng(seed: u64) -> (rng: StdRng)
    ensures
        rng == seeded_generator(seed),
{
    std_rng_from_seed(seed)
}

/// The seed of the demos' Groth16 setup.
pub const DEMO_SETUP_SEED: u64 = 42;

/// The demos' keys: the setup run on the generator seeded with
/// `DEMO_SETUP_SEED`.
pub fn demo_setup() -> (keys: (ProvingKey, VerifyingKey))
    ensures
        (keys.0@, keys.1@) == setup_keys(seeded_generator(DEMO_SETUP_SEED)),
        keys.1@ == verifying_key_of(keys.0@),
{
    let mut rng = seeded_rng(DEMO_SETUP_SEED);
    setup(&mut rng)
}

/// Groth16 setup of the transfer circuit (`prove::setup`).
pub fn setup(rng: &mut StdRng) -> (keys: (ProvingKey, VerifyingKey))
    ensures
        (keys.0@, keys.1@) == setup_keys(*old(rng)),
        keys.1@ == verifying_key_of(keys.0@),
{
    sdk_setup(rng)
}

/// A proof that the consumed note, reached from the root by `path`, is
/// spent into the two created notes (`prove::prove`). The public inputs are
/// the root the path leads to from the consumed note's commitment, the
/// nullifier of the consumed note, and the commitments of the created notes.
pub fn prove(
    pk: &ProvingKey,
    sk: &SecretKey,
    consumed: &Note,
    path: &MerklePath,
    out_0: &Note,
    out_1: &Note,
    rng: &mut StdRng,
) -> (res: (Proof, PublicInputs))
    requires
        transfer_satisfiable(*sk, *consumed, *path, *out_0, *out_1),
    ensures
        res.1.old_root@ == path.root_from(consumed.commitment_spec()),
        res.1.nullifier@ == poseidon_nullifier(sk.0@, consumed.nonce@),
        res.1.out_commitment_0@ == out_0.commitment_spec(),
        res.1.out_commitment_1@ == out_1.commitment_spec(),
        groth16_verifies(verifying_key_of(pk@), res.0@, res.1.encodings()),
{
    let mut bytes: Vec<u8> = Vec::new();
    let inputs = sdk_prove(pk, sk, consumed, path, out_0, out_1, rng, &mut bytes);
    let pi = PublicInputs {
        old_root: FieldElement::from_encoding(&inputs[0]),
        nullifier: FieldElement::from_encoding(&inputs[1]),
        out_commitment_0: FieldElement::from_encoding(&inputs[2]),
        out_commitment_1: FieldElement::from_encoding(&inputs[3]),
    };
    proof {
        assert(bytes@.subrange(0, bytes@.len() as int) =~= bytes@);
        assert(pi.encodings() =~= seq![inputs@[0]@, inputs@[1]@, inputs@[2]@, inputs@[3]@]);
    }
    (Proof { bytes }, pi)
}

/// Whether the proof verifies for the public inputs (`prove::verify_offchain`).
pub fn verify_offchain(vk: &VerifyingKey, proof: &Proof, inputs: &PublicInputs) -> (ok: bool)
    ensures
        ok == groth16_verifies(vk@, proof@, inputs.encodings()),
{
    sdk_verify_offchain(vk, proof, inputs)
}

/// The proof's points and the public inputs as hexadecimal text
/// (`prove::serialize_proof_for_soroban`): each point in its uncompressed
/// form, each input as its 32 big-endian bytes.
pub fn serialize_proof_for_soroban(proof: &Proof, inputs: &Vec<FieldElement>) -> (res: (SerializedProof, Vec<String>))
    ensures
        res.0.a@ == hex_encode(proof@.subrange(0, 96)),
        res.0.b@ == hex_encode(proof@.subrange(96, 288)),
        res.0.c@ == hex_encode(proof@.subrange(288, 384)),
        res.1@.len() == inputs@.len(),
        forall|i: int| 0 <= i < inputs@.len() ==> #[trigger] res.1@[i]@ == hex_encode(inputs@[i]@),
{
    proof {
        use_type_invariant(proof);
    }
    sdk_serialize_proof(proof, inputs)
}

/// `wallet::crypto_rng`: `StdRng::seed_from_u64` of the clock's nanoseconds
/// since the Unix epoch, cut to 64 bits. Which seed the clock gives is left
/// unsaid, as the clock is no function of anything the library holds.
#[verifier::external_body]
fn sdk_crypto_rng() -> (rng: StdRng)
    ensures
        exists|t: u64| rng == #[trigger] seeded_generator(t),
{
    r14_sdk::wallet::crypto_rng()
}

/// `StdRng::seed_from_u64`: the generator is a function of the seed alone,
/// named `seeded_generator`.
#[verifier::external_body]
fn std_rng_from_seed(seed: u64) -> (rng: StdRng)
    ensures
        rng == seeded_generator(seed),
{
    StdRng::seed_from_u64(seed)
}

/// `prove::setup`: keys drawn from `rng`, held in uncompressed encoding;
/// they depend on the generator's state before the draw alone and are named
/// `setup_keys` of it; what the generator's state becomes is left unsaid.
/// The verifying key returned is the one the proving key carries.
#[verifier::external_body]
fn sdk_setup(rng: &mut StdRng) -> (keys: (ProvingKey, VerifyingKey))
    ensures
        (keys.0@, keys.1@) == setup_keys(*old(rng)),
        keys.1@ == verifying_key_of(keys.0@),
{
    let (pk, vk) = r14_sdk::prove::setup(rng);
    let (mut pk_bytes, mut vk_bytes) = (Vec::new(), Vec::new());
    pk.serialize_uncompressed(&mut pk_bytes).unwrap();
    vk.serialize_uncompressed(&mut vk_bytes).unwrap();
    (ProvingKey { bytes: pk_bytes }, VerifyingKey { bytes: vk_bytes })
}

/// `prove::prove`: the SDK computes the public inputs natively, in the
/// order root, nullifier, first and second output commitment; the root is
/// the path folded from the consumed commitment with `hash2`, the nullifier
/// is the Poseidon hash of key and nonce; each is a field element, returned
/// as its canonical encoding. Its proving step asserts, in debug builds, that
/// the witness satisfies the circuit, hence the `requires`. The proof's
/// uncompressed encoding, 384 bytes, is appended to `proof_out`; under the
/// `requires` the witness satisfies the circuit, so the proof verifies under
/// the verifying key that `pk` carries for the returned inputs (Groth16
/// completeness); its bytes are otherwise left unsaid, the prover being
/// randomised by `rng`.
#[verifier::external_body]
fn sdk_prove(
    pk: &ProvingKey,
    sk: &SecretKey,
    consumed: &Note,
    path: &MerklePath,
    out_0: &Note,
    out_1: &Note,
    rng: &mut StdRng,
    proof_out: &mut Vec<u8>,
) -> (inputs: Vec<Vec<u8>>)
    requires
        transfer_satisfiable(*sk, *consumed, *path, *out_0, *out_1),
    ensures
        final(proof_out)@.len() == old(proof_out)@.len() + 384,
        inputs@.len() == 4,
        forall|i: int| 0 <= i < 4 ==> is_field_encoding(#[trigger] inputs@[i]@),
        inputs@[0]@ == path.root_from(consumed.commitment_spec()),
        inputs@[1]@ == poseidon_nullifier(sk.0@, consumed.nonce@),
        inputs@[2]@ == out_0.commitment_spec(),
        inputs@[3]@ == out_1.commitment_spec(),
        groth16_verifies(
            verifying_key_of(pk@),
            final(proof_out)@.subrange(old(proof_out)@.len() as int, final(proof_out)@.len() as int),
            seq![inputs@[0]@, inputs@[1]@, inputs@[2]@, inputs@[3]@],
        ),
{
    let fr = |e: &FieldElement| Fr::from_be_bytes_mod_order(&e.bytes);
    let nt = |n: &Note| r14_sdk::Note::with_nonce(n.value, n.app_tag, fr(&n.owner), fr(&n.nonce));
    let pk = ark_groth16::ProvingKey::deserialize_uncompressed_unchecked(&*pk.bytes).unwrap();
    let (proof, pi) = r14_sdk::prove::prove(
        &pk,
        fr(&sk.0),
        nt(consumed),
        r14_sdk::MerklePath { siblings: path.siblings.iter().map(fr).collect(), indices: path.indices.clone() },
        [nt(out_0), nt(out_1)],
        rng,
    );
    proof.serialize_uncompressed(proof_out).unwrap();
    pi.to_vec().iter().map(|x| x.into_bigint().to_bytes_be()).collect()
}

/// `prove::verify_offchain`: its result is named `groth16_verifies`.
#[verifier::external_body]
fn sdk_verify_offchain(vk: &VerifyingKey, proof: &Proof, inputs: &PublicInputs) -> (ok: bool)
    ensures
        ok == groth16_verifies(vk@, proof@, inputs.encodings()),
{
    let fr = |e: &FieldElement| Fr::from_be_bytes_mod_order(&e.bytes);
    let vk = ark_groth16::VerifyingKey::deserialize_uncompressed_unchecked(&vk.bytes[..]).unwrap();
    let proof = ark_groth16::Proof::deserialize_uncompressed_unchecked(&proof.bytes[..]).unwrap();
    let pi = r14_sdk::prove::PublicInputs {
        old_root: fr(&inputs.old_root),
        nullifier: fr(&inputs.nullifier),
        out_commitment_0: fr(&inputs.out_commitment_0),
        out_commitment_1: fr(&inputs.out_commitment_1),
    };
    r14_sdk::prove::verify_offchain(&vk, &proof, &pi)
}

/// `prove::serialize_proof_for_soroban`: the hexadecimal text of each
/// uncompressed point, which are the consecutive slices of the proof's
/// encoding, and of each input's big-endian bytes.
#[verifier::external_body]
fn sdk_serialize_proof(proof: &Proof, inputs: &Vec<FieldElement>) -> (res: (SerializedProof, Vec<String>))
    requires
        proof@.len() == 384,
    ensures
        res.0.a@ == hex_encode(proof@.subrange(0, 96)),
        res.0.b@ == hex_encode(proof@.subrange(96, 288)),
        res.0.c@ == hex_encode(proof@.subrange(288, 384)),
        res.1@.len() == inputs@.len(),
        forall|i: int| 0 <= i < inputs@.len() ==> #[trigger] res.1@[i]@ == hex_encode(inputs@[i]@),
{
    let proof = ark_groth16::Proof::deserialize_uncompressed_unchecked(&proof.bytes[..]).unwrap();
    let inputs: Vec<Fr> = inputs.iter().map(|e| Fr::from_be_bytes_mod_order(&e.bytes)).collect();
    let (sp, pis) = r14_sdk::prove::serialize_proof_for_soroban(&proof, &inputs);
    (SerializedProof { a: sp.a, b: sp.b, c: sp.c }, pis)
}

} // verus!
