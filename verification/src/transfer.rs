//! A private transfer out of a wallet record: the consumed note, its
//! authentication path, and the two created notes, one to the recipient
//! and one back to the sender as change.
use vstd::prelude::*;
use ark_std::rand::rngs::StdRng;
use crate::merkle::{fold_right_with, law_offline_path_root, merkle_depth, tree_root, MerklePath};
use crate::notes::{owner_hash, poseidon_nullifier, poseidon_owner_hash, Note, OwnerHash, SecretKey};
use crate::field::{fr_rand_draw, fr_rand_next};
use crate::hex::hex_encode;
use crate::prove::{
    groth16_verifies, prove, serialize_proof_for_soroban, transfer_satisfiable, verifying_key_of, Proof,
    ProvingKey, PublicInputs, SerializedProof,
};
use crate::wallet::{note_model, EntryError, NoteEntry};

verus! {

/// The application tag that the demos give every note.
pub const DEMO_APP_TAG: u32 = 1;

/// The notes of a transfer, ready for the prover.
#[derive(Clone, Debug)]
pub struct TransferPlan {
    /// The note being spent.
    pub consumed: Note,
    /// Its authentication path.
    pub path: MerklePath,
    /// The note created for the recipient.
    pub to_recipient: Note,
    /// The note created back for the sender.
    pub change: Note,
}

/// Why a planned transfer cannot be proved.
#[derive(Clone, Copy, Debug, PartialEq, Eq)]
pub enum TransferError {
    /// The key does not own the consumed note.
    NotOwner,
    /// The created values do not add up to the consumed value.
    ValueMismatch,
    /// A created note carries another tag than the consumed one.
    TagMismatch,
    /// The path does not have one sibling and one direction per level.
    MalformedPath,
}

impl TransferPlan {
    /// Whether the prover accepts this plan under the key.
    pub open spec fn provable(self, sk: SecretKey) -> bool {
        transfer_satisfiable(sk, self.consumed, self.path, self.to_recipient, self.change)
    }
}

/// `plan` spends the note that `entry` records: `amount` goes to the
/// recipient and the rest back to the sender, both under the demo tag, and
/// the path is the offline one.
pub open spec fn is_plan_for(
    plan: TransferPlan,
    entry: NoteEntry,
    amount: u64,
    recipient: OwnerHash,
    sender: OwnerHash,
) -> bool {
    &&& entry.decoded() == Ok::<_, EntryError>(note_model(plan.consumed))
    &&& plan.path.is_offline_path()
    &&& plan.to_recipient.value == amount
    &&& plan.to_recipient.app_tag == DEMO_APP_TAG
    &&& plan.to_recipient.owner == recipient.0
    &&& plan.change.value == entry.value - amount
    &&& plan.change.app_tag == DEMO_APP_TAG
    &&& plan.change.owner == sender.0
    &&& plan.to_recipient.value + plan.change.value == plan.consumed.value
}

/// Splits a note's value into the amount sent and the change kept.
pub fn split_value(value: u64, amount: u64) -> (parts: (u64, u64))
    requires
        amount <= value,
    ensures
        parts.0 == amount,
        parts.0 + parts.1 == value,
{
    (amount, value - amount)
}

/// Plans the transfer of `amount` out of the note that `entry` records:
/// the consumed note is read back from the record, the path is the offline
/// one, and two notes with fresh nonces are created, `amount` to the
/// recipient and the rest to the sender, both with the demo tag.
pub fn prepare_transfer(
    entry: &NoteEntry,
    amount: u64,
    recipient: &OwnerHash,
    sender: &OwnerHash,
    rng: &mut StdRng,
) -> (r: Result<TransferPlan, EntryError>)
    requires
        amount <= entry.value,
    ensures
        match r {
            Ok(plan) => {
                &&& is_plan_for(plan, *entry, amount, *recipient, *sender)
                &&& plan.path.siblings@.len() == 20
                &&& plan.path.indices@.len() == 20
                &&& forall|i: int| 0 <= i < 20 ==> #[trigger] plan.path.siblings@[i]@ == tree_root(Seq::empty())
                &&& forall|i: int| 0 <= i < 20 ==> !#[trigger] plan.path.indices@[i]
                &&& plan.path.root_from(plan.consumed.commitment_spec()) == fold_right_with(
                    plan.consumed.commitment_spec(),
                    tree_root(Seq::empty()),
                    20,
                )
                &&& plan.to_recipient.nonce@ == fr_rand_draw(*old(rng))
                &&& plan.change.nonce@ == fr_rand_draw(fr_rand_next(*old(rng)))
                &&& *final(rng) == fr_rand_next(fr_rand_next(*old(rng)))
            },
            Err(e) => {
                &&& entry.decoded() == Err::<(u64, u32, Seq<u8>, Seq<u8>), _>(e)
                &&& *final(rng) == *old(rng)
            },
        },
{
    let (sent, change): (u64, u64) = split_value(entry.value, amount);
    let consumed = match entry.to_note() {
        Ok(n) => n,
        Err(e) => return Err(e),
    };
    let path = MerklePath::offline();
    proof {
        law_offline_path_root(path, consumed.commitment_spec());
    }
    let to_recipient = Note::new(sent, DEMO_APP_TAG, recipient.0, rng);
    let change_note = Note::new(change, DEMO_APP_TAG, sender.0, rng);
    Ok(TransferPlan { consumed, path, to_recipient, change: change_note })
}

/// Proves a plan that the prover accepts.
pub fn prove_transfer(pk: &ProvingKey, sk: &SecretKey, plan: &TransferPlan, rng: &mut StdRng) -> (res: (Proof, PublicInputs))
    requires
        plan.provable(*sk),
    ensures
        res.1.old_root@ == plan.path.root_from(plan.consumed.commitment_spec()),
        res.1.nullifier@ == poseidon_nullifier(sk.0@, plan.consumed.nonce@),
        res.1.out_commitment_0@ == plan.to_recipient.commitment_spec(),
        res.1.out_commitment_1@ == plan.change.commitment_spec(),
        groth16_verifies(verifying_key_of(pk@), res.0@, res.1.encodings()),
{
    prove(pk, sk, &plan.consumed, &plan.path, &plan.to_recipient, &plan.change, rng)
}

/// The first reason, in the order owner, values, tags, path, why the
/// prover would refuse the plan under the key.
pub open spec fn transfer_check(sk: SecretKey, plan: TransferPlan) -> Result<(), TransferError> {
    if poseidon_owner_hash(sk.0@) != plan.consumed.owner@ {
        Err(TransferError::NotOwner)
    } else if plan.consumed.value != plan.to_recipient.value + plan.change.value {
        Err(TransferError::ValueMismatch)
    } else if plan.consumed.app_tag != plan.to_recipient.app_tag || plan.consumed.app_tag
        != plan.change.app_tag {
        Err(TransferError::TagMismatch)
    } else if plan.path.siblings@.len() != 20 || plan.path.indices@.len() < 20 {
        Err(TransferError::MalformedPath)
    } else {
        Ok(())
    }
}

/// Proves a plan after checking, in the order of `transfer_check`, that the
/// prover accepts it; the first check that fails is reported.
pub fn try_prove_transfer(
    pk: &ProvingKey,
    sk: &SecretKey,
    plan: &TransferPlan,
    rng: &mut StdRng,
) -> (r: Result<(Proof, PublicInputs), TransferError>)
    ensures
        (transfer_check(*sk, *plan) is Ok) <==> plan.provable(*sk),
        match r {
            Ok(res) => {
                &&& transfer_check(*sk, *plan) == Ok::<(), TransferError>(())
                &&& res.1.old_root@ == plan.path.root_from(plan.consumed.commitment_spec())
                &&& res.1.nullifier@ == poseidon_nullifier(sk.0@, plan.consumed.nonce@)
                &&& res.1.out_commitment_0@ == plan.to_recipient.commitment_spec()
                &&& res.1.out_commitment_1@ == plan.change.commitment_spec()
                &&& groth16_verifies(verifying_key_of(pk@), res.0@, res.1.encodings())
            },
            Err(e) => transfer_check(*sk, *plan) == Err::<(), TransferError>(e),
        },
{
    let depth: usize = merkle_depth();
    let owner = owner_hash(sk);
    if !owner.0.equals(&plan.consumed.owner) {
        return Err(TransferError::NotOwner);
    }
    let total: u128 = plan.to_recipient.value as u128 + plan.change.value as u128;
    if total != plan.consumed.value as u128 {
        return Err(TransferError::ValueMismatch);
    }
    if plan.consumed.app_tag != plan.to_recipient.app_tag || plan.consumed.app_tag != plan.change.app_tag {
        return Err(TransferError::TagMismatch);
    }
    if plan.path.siblings.len() != depth || plan.path.indices.len() < depth {
        return Err(TransferError::MalformedPath);
    }
    Ok(prove_transfer(pk, sk, plan, rng))
}

/// Why a private transfer out of a record failed.
#[derive(Clone, Copy, Debug, PartialEq, Eq)]
pub enum FlowError {
    /// The record does not read back as a note.
    Entry(EntryError),
    /// The prover would refuse the planned transfer.
    Transfer(TransferError),
}

/// A proved private transfer and its encoding for Soroban.
#[derive(Debug)]
pub struct TransferOutcome {
    pub plan: TransferPlan,
    pub proof: Proof,
    pub inputs: PublicInputs,
    pub serialized: SerializedProof,
    pub serialized_inputs: Vec<String>,
}

/// Sends `amount` out of the note that `entry` records to `recipient`,
/// the change going back to the key's owner hash, as the demos do: plan the
/// notes, prove the transfer, and encode proof and public inputs for Soroban.
pub fn private_transfer(
    pk: &ProvingKey,
    sk: &SecretKey,
    entry: &NoteEntry,
    amount: u64,
    recipient: &OwnerHash,
    rng: &mut StdRng,
) -> (r: Result<TransferOutcome, FlowError>)
    requires
        amount <= entry.value,
    ensures
        match r {
            Ok(o) => {
                &&& entry.decoded() == Ok::<_, EntryError>(note_model(o.plan.consumed))
                &&& o.plan.path.is_offline_path()
                &&& o.plan.to_recipient.value == amount
                &&& o.plan.to_recipient.app_tag == DEMO_APP_TAG
                &&& o.plan.to_recipient.owner == recipient.0
                &&& o.plan.change.value == entry.value - amount
                &&& o.plan.change.app_tag == DEMO_APP_TAG
                &&& o.plan.change.owner@ == poseidon_owner_hash(sk.0@)
                &&& transfer_check(*sk, o.plan) == Ok::<(), TransferError>(())
                &&& o.inputs.old_root@ == o.plan.path.root_from(o.plan.consumed.commitment_spec())
                &&& forall|i: int| 0 <= i < 20 ==> #[trigger] o.plan.path.siblings@[i]@ == tree_root(Seq::empty())
                &&& forall|i: int| 0 <= i < 20 ==> !#[trigger] o.plan.path.indices@[i]
                &&& o.inputs.old_root@ == fold_right_with(
                    o.plan.consumed.commitment_spec(),
                    tree_root(Seq::empty()),
                    20,
                )
                &&& o.inputs.nullifier@ == poseidon_nullifier(sk.0@, o.plan.consumed.nonce@)
                &&& o.inputs.out_commitment_0@ == o.plan.to_recipient.commitment_spec()
                &&& o.inputs.out_commitment_1@ == o.plan.change.commitment_spec()
                &&& o.plan.to_recipient.nonce@ == fr_rand_draw(*old(rng))
                &&& o.plan.change.nonce@ == fr_rand_draw(fr_rand_next(*old(rng)))
                &&& groth16_verifies(verifying_key_of(pk@), o.proof@, o.inputs.encodings())
                &&& o.serialized.a@ == hex_encode(o.proof@.subrange(0, 96))
                &&& o.serialized.b@ == hex_encode(o.proof@.subrange(96, 288))
                &&& o.serialized.c@ == hex_encode(o.proof@.subrange(288, 384))
                &&& o.serialized_inputs@.len() == 4
                &&& forall|i: int| 0 <= i < 4 ==> #[trigger] o.serialized_inputs@[i]@ == hex_encode(o.inputs.encodings()[i])
            },
            Err(FlowError::Entry(e)) => entry.decoded() == Err::<(u64, u32, Seq<u8>, Seq<u8>), _>(e),
            Err(FlowError::Transfer(e)) => {
                &&& entry.decoded() is Ok
                &&& entry.app_tag != DEMO_APP_TAG || entry.decoded()->Ok_0.2 != poseidon_owner_hash(sk.0@)
                &&& (entry.decoded()->Ok_0.2 != poseidon_owner_hash(sk.0@) ==> e == TransferError::NotOwner)
                &&& (entry.decoded()->Ok_0.2 == poseidon_owner_hash(sk.0@) ==> e == TransferError::TagMismatch)
            },
        },
{
    let sender = owner_hash(sk);
    let plan = match prepare_transfer(entry, amount, recipient, &sender, rng) {
        Ok(p) => p,
        Err(e) => return Err(FlowError::Entry(e)),
    };
    let (proof, inputs) = match try_prove_transfer(pk, sk, &plan, rng) {
        Ok(res) => res,
        Err(e) => return Err(FlowError::Transfer(e)),
    };
    let input_list = inputs.to_vec();
    let (serialized, serialized_inputs) = serialize_proof_for_soroban(&proof, &input_list);
    Ok(TransferOutcome { plan, proof, inputs, serialized, serialized_inputs })
}

/// Law: a transfer planned out of a record under the demo tag, of a note
/// that the key owns, passes every check of the prover.
pub proof fn law_planned_transfer_provable(
    sk: SecretKey,
    plan: TransferPlan,
    entry: NoteEntry,
    amount: u64,
    recipient: OwnerHash,
    sender: OwnerHash,
)
    requires
        is_plan_for(plan, entry, amount, recipient, sender),
        entry.app_tag == DEMO_APP_TAG,
        entry.decoded() matches Ok(m) && m.2 == poseidon_owner_hash(sk.0@),
    ensures
        transfer_check(sk, plan) == Ok::<(), TransferError>(()),
        plan.provable(sk),
{
}

} // verus!
