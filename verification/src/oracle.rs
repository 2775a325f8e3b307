//! zkTLS: a private value fetched over TLS, committed to with Poseidon, and
//! a threshold claim about it.
use vstd::prelude::*;
use crate::field::{be_bytes, FieldElement};
use crate::notes::{hash2, poseidon_hash2};

verus! {

/// The threshold of the demo claim "balance > threshold".
pub const CLAIM_THRESHOLD: u64 = 10000;

/// What a TLS oracle reports of a private value.
#[derive(Clone, Copy, Debug, PartialEq, Eq)]
pub struct TlsOracleResponse {
    pub source: &'static str,
    pub field: &'static str,
    pub value: u64,
    pub tls_session_id: &'static str,
}

/// The simulated bank API response of the demo.
pub fn mock_tls_oracle() -> (r: TlsOracleResponse)
    ensures
        r.source@ == "api.examplebank.com/balance"@,
        r.field@ == "account_balance_usd"@,
        r.value == 15000,
        r.tls_session_id@ == "tls13_aead_aes256gcm_sha384_0x7f3a"@,
{
    TlsOracleResponse {
        source: "api.examplebank.com/balance",
        field: "account_balance_usd",
        value: 15000,
        tls_session_id: "tls13_aead_aes256gcm_sha384_0x7f3a",
    }
}

/// The hiding commitment `Poseidon(value, blinding)` to a private value.
pub fn commit_value(value: u64, blinding: &FieldElement) -> (c: FieldElement)
    ensures
        c@ == poseidon_hash2(be_bytes(value as nat, 32), blinding@),
{
    let v = FieldElement::from_u64(value);
    hash2(&v, blinding)
}

/// Whether the private value exceeds the threshold.
pub fn range_claim_holds(value: u64, threshold: u64) -> (holds: bool)
    ensures
        holds == (value > threshold),
{
    value > threshold
}

} // verus!
