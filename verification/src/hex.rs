//! The hexadecimal text form of field elements used by the wallet.
use vstd::prelude::*;
use ark_bls12_381::Fr;
use ark_ff::{BigInteger, PrimeField};
use crate::field::{be_value, field_modulus, is_field_encoding, FieldElement};

verus! {

/// Lower-case hexadecimal digit of a nibble.
pub open spec fn hex_digit(n: int) -> char {
    if n == 0 { '0' }
    else if n == 1 { '1' }
    else if n == 2 { '2' }
    else if n == 3 { '3' }
    else if n == 4 { '4' }
    else if n == 5 { '5' }
    else if n == 6 { '6' }
    else if n == 7 { '7' }
    else if n == 8 { '8' }
    else if n == 9 { '9' }
    else if n == 10 { 'a' }
    else if n == 11 { 'b' }
    else if n == 12 { 'c' }
    else if n == 13 { 'd' }
    else if n == 14 { 'e' }
    else { 'f' }
}

/// Value of a hexadecimal digit of either case, if `c` is one.
pub open spec fn hex_nibble(c: char) -> Option<int> {
    if '0' <= c && c <= '9' {
        Some(c as int - '0' as int)
    } else if 'a' <= c && c <= 'f' {
        Some(c as int - 'a' as int + 10)
    } else if 'A' <= c && c <= 'F' {
        Some(c as int - 'A' as int + 10)
    } else {
        None
    }
}

/// Lower-case hexadecimal text of a byte string, two digits per byte,
/// high nibble first (`hex::encode`).
pub open spec fn hex_encode(bytes: Seq<u8>) -> Seq<char>
    decreases bytes.len(),
{
    if bytes.len() == 0 {
        Seq::empty()
    } else {
        seq![hex_digit(bytes[0] as int / 16), hex_digit(bytes[0] as int % 16)] + hex_encode(bytes.skip(1))
    }
}

/// Bytes denoted by hexadecimal text of either case, or `None` where the
/// text has odd length or a character that is not a hexadecimal digit
/// (`hex::decode`).
pub open spec fn hex_decode(text: Seq<char>) -> Option<Seq<u8>>
    decreases text.len(),
{
    if text.len() == 0 {
        Some(Seq::empty())
    } else if text.len() == 1 {
        None
    } else {
        match (hex_nibble(text[0]), hex_nibble(text[1]), hex_decode(text.skip(2))) {
            (Some(hi), Some(lo), Some(rest)) => Some(seq![(hi * 16 + lo) as u8] + rest),
            _ => None,
        }
    }
}

/// The text with a leading `0x` removed, where it has one.
pub open spec fn strip_0x(text: Seq<char>) -> Seq<char> {
    if text.len() >= 2 && text[0] == '0' && text[1] == 'x' {
        text.skip(2)
    } else {
        text
    }
}

/// `0x` followed by the lower-case hexadecimal text of the bytes
/// (`wallet::fr_to_hex`).
pub open spec fn prefixed_hex(bytes: Seq<u8>) -> Seq<char> {
    seq!['0', 'x'] + hex_encode(bytes)
}

/// The canonical encoding that `wallet::hex_to_fr` reads from a text:
/// an optional `0x`, then hexadecimal digits; of their bytes the first 32
/// are kept, padded with leading zeros to 32, and the value must lie below
/// the field modulus.
pub open spec fn parse_field_hex(text: Seq<char>) -> Option<Seq<u8>> {
    match hex_decode(strip_0x(text)) {
        None => None,
        Some(bytes) => {
            let kept = if bytes.len() <= 32 { bytes } else { bytes.take(32) };
            let padded = Seq::new((32 - kept.len()) as nat, |i: int| 0u8) + kept;
            if be_value(padded) < field_modulus() {
                Some(padded)
            } else {
                None
            }
        }
    }
}

/// Reading a digit back gives its nibble.
pub proof fn lemma_hex_digit_nibble(n: int)
    requires
        0 <= n < 16,
    ensures
        hex_nibble(hex_digit(n)) == Some(n),
{
}

/// Hexadecimal text has two characters per byte, each a lower-case digit.
pub proof fn lemma_hex_encode_shape(bytes: Seq<u8>)
    ensures
        hex_encode(bytes).len() == 2 * bytes.len(),
        forall|i: int| 0 <= i < hex_encode(bytes).len() ==> #[trigger] hex_encode(bytes)[i] != 'x',
    decreases bytes.len(),
{
    if bytes.len() > 0 {
        lemma_hex_encode_shape(bytes.skip(1));
        let head = seq![hex_digit(bytes[0] as int / 16), hex_digit(bytes[0] as int % 16)];
        let tail = hex_encode(bytes.skip(1));
        assert forall|i: int| 0 <= i < hex_encode(bytes).len() implies #[trigger] hex_encode(bytes)[i] != 'x' by {
            if i >= 2 {
                assert(hex_encode(bytes)[i] == tail[i - 2]);
            }
        }
    }
}

/// Decoding the hexadecimal text of bytes gives the bytes back.
pub proof fn lemma_hex_roundtrip(bytes: Seq<u8>)
    ensures
        hex_decode(hex_encode(bytes)) == Some(bytes),
    decreases bytes.len(),
{
    if bytes.len() > 0 {
        let text = hex_encode(bytes);
        let b: u8 = bytes[0];
        lemma_hex_encode_shape(bytes);
        lemma_hex_digit_nibble(b as int / 16);
        lemma_hex_digit_nibble(b as int % 16);
        assert(text.skip(2) =~= hex_encode(bytes.skip(1)));
        lemma_hex_roundtrip(bytes.skip(1));
        assert(((b / 16) * 16 + b % 16) as u8 == b);
        assert(seq![b] + bytes.skip(1) =~= bytes);
    }
}

/// Parsing the `0x` text of a canonical encoding gives the encoding back.
pub proof fn lemma_parse_prefixed(bytes: Seq<u8>)
    requires
        is_field_encoding(bytes),
    ensures
        parse_field_hex(prefixed_hex(bytes)) == Some(bytes),
{
    let text = prefixed_hex(bytes);
    assert(strip_0x(text) =~= hex_encode(bytes));
    lemma_hex_roundtrip(bytes);
    assert(Seq::new(0, |i: int| 0u8) + bytes =~= bytes);
}

impl FieldElement {
    /// `0x`-prefixed lower-case big-endian hexadecimal text (`wallet::fr_to_hex`).
    pub fn to_hex(&self) -> (text: String)
        ensures
            text@ == prefixed_hex(self@),
            text@.len() == 66,
    {
        proof {
            use_type_invariant(self);
            lemma_hex_encode_shape(self@);
        }
        fr_to_hex(self)
    }

    /// The element that a wallet text denotes (`wallet::hex_to_fr`), or
    /// `None` where the text is no hexadecimal or denotes a value at or above
    /// the field modulus.
    pub fn from_hex(text: &str) -> (e: Option<FieldElement>)
        ensures
            e is Some <==> parse_field_hex(text@) is Some,
            e matches Some(x) ==> parse_field_hex(text@) == Some(x@),
    {
        hex_to_fr(text)
    }
}

/// Law: the wallet's text of an element reads back as that element.
pub proof fn law_hex_roundtrip(e: FieldElement)
    requires
        e.canonical(),
    ensures
        parse_field_hex(prefixed_hex(e@)) == Some(e@),
{
    lemma_parse_prefixed(e@);
}

/// `wallet::fr_to_hex`: `0x` followed by the lower-case hexadecimal text of
/// the element's 32 big-endian bytes.
#[verifier::external_body]
fn fr_to_hex(e: &FieldElement) -> (text: String)
    ensures
        text@ == prefixed_hex(e@),
{
    r14_sdk::wallet::fr_to_hex(&Fr::from_be_bytes_mod_order(&e.bytes))
}

/// `wallet::hex_to_fr`: the element the text denotes, read as
/// `parse_field_hex` says; its error is dropped.
#[verifier::external_body]
fn hex_to_fr(text: &str) -> (e: Option<FieldElement>)
    ensures
        e is Some <==> parse_field_hex(text@) is Some,
        e matches Some(x) ==> parse_field_hex(text@) == Some(x@),
{
    match r14_sdk::wallet::hex_to_fr(text) {
        Ok(fr) => Some(FieldElement { bytes: fr.into_bigint().to_bytes_be().try_into().unwrap() }),
        Err(_) => None,
    }
}

} // verus!
