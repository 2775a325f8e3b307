//! Settings of the payment demo: where the indexer is, which Stellar key and
//! contracts to use, and whether they are set well enough to go on-chain.
use vstd::prelude::*;

verus! {

/// Stands for a setting that was not given.
pub const PLACEHOLDER: &'static str = "PLACEHOLDER";

/// The indexer used when none is given.
pub const DEFAULT_INDEXER_URL: &'static str = "http://localhost:3000";

/// The demo's settings.
#[derive(Clone, Debug, PartialEq, Eq)]
pub struct Settings {
    pub indexer_url: String,
    pub stellar_secret: String,
    pub core_contract: String,
    pub transfer_contract: String,
}

/// The given text, or the default where none is given.
pub open spec fn or_default(given: Option<String>, default: Seq<char>) -> Seq<char> {
    match given {
        Some(s) => s@,
        None => default,
    }
}

/// The given text, or the default where none is given.
fn given_or(given: Option<String>, default: &str) -> (s: String)
    ensures
        s@ == or_default(given, default@),
{
    match given {
        Some(s) => s,
        None => default.to_owned(),
    }
}

impl Settings {
    /// Settings from the values that were given; the indexer defaults to
    /// the local one, every other setting to the placeholder.
    pub fn from_given(
        indexer_url: Option<String>,
        stellar_secret: Option<String>,
        core_contract: Option<String>,
        transfer_contract: Option<String>,
    ) -> (s: Settings)
        ensures
            s.indexer_url@ == or_default(indexer_url, DEFAULT_INDEXER_URL@),
            s.stellar_secret@ == or_default(stellar_secret, PLACEHOLDER@),
            s.core_contract@ == or_default(core_contract, PLACEHOLDER@),
            s.transfer_contract@ == or_default(transfer_contract, PLACEHOLDER@),
    {
        Settings {
            indexer_url: given_or(indexer_url, DEFAULT_INDEXER_URL),
            stellar_secret: given_or(stellar_secret, PLACEHOLDER),
            core_contract: given_or(core_contract, PLACEHOLDER),
            transfer_contract: given_or(transfer_contract, PLACEHOLDER),
        }
    }

    /// Whether the demo goes on-chain: the Stellar key and the transfer
    /// contract are both set.
    pub fn is_live(&self) -> (live: bool)
        ensures
            live == (self.stellar_secret@ != PLACEHOLDER@ && self.transfer_contract@ != PLACEHOLDER@),
    {
        let placeholder = PLACEHOLDER.to_owned();
        !(self.stellar_secret == placeholder) && !(self.transfer_contract == placeholder)
    }
}

} // verus!
