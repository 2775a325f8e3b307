//! Wallet records of notes, with owner, nonce and commitment as `0x` text.
use vstd::prelude::*;
use crate::field::FieldElement;
use crate::hex::{law_hex_roundtrip, parse_field_hex, prefixed_hex};
use crate::notes::{commitment, Note};

verus! {

/// A note as the wallet stores it (`wallet::NoteEntry`).
#[derive(Clone, Debug, PartialEq, Eq)]
pub struct NoteEntry {
    pub value: u64,
    pub app_tag: u32,
    pub owner: String,
    pub nonce: String,
    pub commitment: String,
    pub index: Option<u64>,
    pub spent: bool,
}

/// Why a wallet record does not read back as a note.
#[derive(Clone, Copy, Debug, PartialEq, Eq)]
pub enum EntryError {
    /// The owner text is no field element.
    InvalidOwner,
    /// The nonce text is no field element.
    InvalidNonce,
}

/// The plain content of a note: value, tag, owner and nonce encodings.
pub open spec fn note_model(n: Note) -> (u64, u32, Seq<u8>, Seq<u8>) {
    (n.value, n.app_tag, n.owner@, n.nonce@)
}

/// The note a record denotes: the owner text is read first, then the nonce
/// text, each as `wallet::hex_to_fr` reads it.
pub open spec fn decoded_entry(
    value: u64,
    app_tag: u32,
    owner: Seq<char>,
    nonce: Seq<char>,
) -> Result<(u64, u32, Seq<u8>, Seq<u8>), EntryError> {
    match parse_field_hex(owner) {
        None => Err(EntryError::InvalidOwner),
        Some(o) => match parse_field_hex(nonce) {
            None => Err(EntryError::InvalidNonce),
            Some(n) => Ok((value, app_tag, o, n)),
        },
    }
}

impl NoteEntry {
    /// The note this record denotes.
    pub open spec fn decoded(self) -> Result<(u64, u32, Seq<u8>, Seq<u8>), EntryError> {
        decoded_entry(self.value, self.app_tag, self.owner@, self.nonce@)
    }

    /// The record of a freshly deposited note, unspent, at the given leaf
    /// index if it is known.
    pub fn for_note(note: &Note, index: Option<u64>) -> (e: NoteEntry)
        ensures
            e.value == note.value,
            e.app_tag == note.app_tag,
            e.owner@ == prefixed_hex(note.owner@),
            e.nonce@ == prefixed_hex(note.nonce@),
            e.commitment@ == prefixed_hex(note.commitment_spec()),
            e.index == index,
            !e.spent,
    {
        let cm = commitment(note);
        NoteEntry {
            value: note.value,
            app_tag: note.app_tag,
            owner: note.owner.to_hex(),
            nonce: note.nonce.to_hex(),
            commitment: cm.to_hex(),
            index,
            spent: false,
        }
    }

    /// Marks the record as inserted at leaf 0, as the offline demos do in
    /// place of an on-chain deposit.
    pub fn simulate_on_chain(&mut self)
        ensures
            final(self).index == Some(0u64),
            final(self).value == old(self).value,
            final(self).app_tag == old(self).app_tag,
            final(self).owner == old(self).owner,
            final(self).nonce == old(self).nonce,
            final(self).commitment == old(self).commitment,
            final(self).spent == old(self).spent,
    {
        self.index = Some(0);
    }

    /// The note this record denotes (`Note::with_nonce` over the parsed owner
    /// and nonce).
    pub fn to_note(&self) -> (r: Result<Note, EntryError>)
        ensures
            match r {
                Ok(n) => self.decoded() == Ok::<_, EntryError>(note_model(n)),
                Err(e) => self.decoded() == Err::<(u64, u32, Seq<u8>, Seq<u8>), _>(e),
            },
    {
        let owner = match FieldElement::from_hex(self.owner.as_str()) {
            Some(o) => o,
            None => return Err(EntryError::InvalidOwner),
        };
        let nonce = match FieldElement::from_hex(self.nonce.as_str()) {
            Some(n) => n,
            None => return Err(EntryError::InvalidNonce),
        };
        Ok(Note::with_nonce(self.value, self.app_tag, owner, nonce))
    }
}

/// Law: the record written for a note reads back as that note.
pub proof fn law_entry_roundtrip(note: Note)
    requires
        note.owner.canonical(),
        note.nonce.canonical(),
    ensures
        decoded_entry(note.value, note.app_tag, prefixed_hex(note.owner@), prefixed_hex(note.nonce@))
            == Ok::<_, EntryError>(note_model(note)),
{
    law_hex_roundtrip(note.owner);
    law_hex_roundtrip(note.nonce);
}

} // verus!
