//! Elements of the BLS12-381 scalar field, held as their canonical
//! 32-byte big-endian encoding.
use vstd::prelude::*;
use ark_bls12_381::Fr;
use ark_ff::{BigInteger, PrimeField, UniformRand};
use ark_std::rand::rngs::StdRng;

verus! {

/// The random number generator that notes, keys and proofs draw from.
#[verifier::external_type_specification]
#[verifier::external_body]
pub struct ExStdRng(StdRng);

/// What `Fr::rand` does to a generator in the given state: the canonical
/// encoding of the element it draws, and the state it leaves the generator
/// in; both depend on that state alone.
pub uninterp spec fn fr_rand(rng: StdRng) -> (Seq<u8>, StdRng);

/// The element's encoding that `Fr::rand` draws from a generator in the
/// given state.
pub open spec fn fr_rand_draw(rng: StdRng) -> Seq<u8> {
    fr_rand(rng).0
}

/// The state a generator is left in after `Fr::rand` draws from it.
pub open spec fn fr_rand_next(rng: StdRng) -> StdRng {
    fr_rand(rng).1
}

/// Order of the BLS12-381 scalar field.
pub open spec fn field_modulus() -> nat {
    52435875175126190479447740508185965837690552500527637822603658699938581184513nat
}

/// Unsigned integer denoted by a big-endian byte string.
pub open spec fn be_value(bytes: Seq<u8>) -> nat
    decreases bytes.len(),
{
    if bytes.len() == 0 {
        0
    } else {
        be_value(bytes.drop_last()) * 256 + bytes.last() as nat
    }
}

/// The `k` low bytes of `n`, big-endian.
pub open spec fn be_bytes(n: nat, k: nat) -> Seq<u8>
    decreases k,
{
    if k == 0 {
        Seq::empty()
    } else {
        be_bytes(n / 256, (k - 1) as nat).push((n % 256) as u8)
    }
}

/// A 32-byte big-endian string that encodes an element of the field.
pub open spec fn is_field_encoding(bytes: Seq<u8>) -> bool {
    bytes.len() == 32 && be_value(bytes) < field_modulus()
}

/// The 32-byte encoding of zero.
pub open spec fn zero_encoding() -> Seq<u8> {
    Seq::new(32, |i: int| 0u8)
}

/// A big-endian value is zero exactly when every byte is zero.
pub proof fn lemma_be_value_zero(bytes: Seq<u8>)
    ensures
        (be_value(bytes) == 0) <==> (forall|i: int| 0 <= i < bytes.len() ==> bytes[i] == 0),
    decreases bytes.len(),
{
    if bytes.len() > 0 {
        let prefix = bytes.drop_last();
        lemma_be_value_zero(prefix);
        if be_value(bytes) == 0 {
            assert forall|i: int| 0 <= i < bytes.len() implies bytes[i] == 0 by {
                if i < bytes.len() - 1 {
                    assert(prefix[i] == bytes[i]);
                }
            }
        } else {
            if forall|i: int| 0 <= i < bytes.len() ==> bytes[i] == 0 {
                assert forall|i: int| 0 <= i < prefix.len() implies prefix[i] == 0 by {
                    assert(bytes[i] == 0);
                }
                assert(bytes[bytes.len() - 1] == 0);
            }
        }
    }
}

/// An element of the BLS12-381 scalar field (`ark_bls12_381::Fr`), stored
/// as its canonical 32-byte big-endian encoding.
#[derive(Clone, Copy, Debug, PartialEq, Eq)]
pub struct FieldElement {
    pub(crate) bytes: [u8; 32],
}

impl View for FieldElement {
    type V = Seq<u8>;

    closed spec fn view(&self) -> Seq<u8> {
        self.bytes@
    }
}

impl FieldElement {
    /// Every element is held in its canonical encoding.
    #[verifier::type_invariant]
    pub open spec fn canonical(self) -> bool {
        is_field_encoding(self@)
    }

    /// The integer in `[0, field_modulus())` that this element denotes.
    pub open spec fn value(self) -> nat {
        be_value(self@)
    }

    /// The element zero.
    pub fn zero() -> (z: FieldElement)
        ensures
            z@ == zero_encoding(),
            z.value() == 0,
    {
        let bytes = [0u8; 32];
        proof {
            assert(bytes@ =~= zero_encoding());
            lemma_be_value_zero(zero_encoding());
        }
        FieldElement { bytes }
    }

    /// The element denoted by a machine integer (`Fr::from(u64)`).
    pub fn from_u64(v: u64) -> (e: FieldElement)
        ensures
            e@ == be_bytes(v as nat, 32),
            e.value() == v,
    {
        fr_from_u64(v)
    }

    /// A uniformly drawn element (`Fr::rand`): the one the generator's state
    /// determines.
    pub fn random(rng: &mut StdRng) -> (e: FieldElement)
        ensures
            e@ == fr_rand_draw(*old(rng)),
            *final(rng) == fr_rand_next(*old(rng)),
    {
        fr_random(rng)
    }

    /// The element whose canonical encoding is `bytes`.
    pub fn from_encoding(bytes: &Vec<u8>) -> (e: FieldElement)
        requires
            is_field_encoding(bytes@),
        ensures
            e@ == bytes@,
    {
        let mut out = [0u8; 32];
        let mut i: usize = 0;
        while i < 32
            invariant
                i <= 32,
                bytes@.len() == 32,
                out@.len() == 32,
                forall|j: int| 0 <= j < i ==> out@[j] == bytes@[j],
            decreases 32 - i,
        {
            out[i] = bytes[i];
            i = i + 1;
        }
        proof {
            assert(out@ =~= bytes@);
        }
        FieldElement { bytes: out }
    }

    /// The canonical big-endian encoding.
    pub fn to_bytes(&self) -> (b: [u8; 32])
        ensures
            b@ == self@,
            is_field_encoding(b@),
    {
        proof {
            use_type_invariant(self);
        }
        self.bytes
    }

    /// Whether this is the element zero (`Zero::is_zero`).
    pub fn is_zero(&self) -> (z: bool)
        ensures
            z == (self.value() == 0),
            z == (self@ == zero_encoding()),
    {
        proof {
            use_type_invariant(self);
            lemma_be_value_zero(self@);
        }
        let mut i: usize = 0;
        while i < 32
            invariant
                i <= 32,
                self.bytes@.len() == 32,
                forall|j: int| 0 <= j < i ==> self.bytes@[j] == 0,
            decreases 32 - i,
        {
            if self.bytes[i] != 0 {
                proof {
                    lemma_be_value_zero(self@);
                    assert(self@[i as int] != 0);
                }
                return false;
            }
            i = i + 1;
        }
        proof {
            assert(self.bytes@ =~= zero_encoding());
        }
        true
    }

    /// Whether two elements are the same element.
    pub fn equals(&self, other: &FieldElement) -> (same: bool)
        ensures
            same == (self@ == other@),
    {
        proof {
            use_type_invariant(self);
            use_type_invariant(other);
        }
        let mut i: usize = 0;
        while i < 32
            invariant
                i <= 32,
                self.bytes@.len() == 32,
                other.bytes@.len() == 32,
                forall|j: int| 0 <= j < i ==> self.bytes@[j] == other.bytes@[j],
            decreases 32 - i,
        {
            if self.bytes[i] != other.bytes[i] {
                assert(self.bytes@[i as int] != other.bytes@[i as int]);
                return false;
            }
            i = i + 1;
        }
        proof {
            assert(self.bytes@ =~= other.bytes@);
        }
        true
    }
}

/// `Fr::from(u64)`: the field element whose value is `v`, whose canonical
/// encoding is the 32-byte big-endian form of `v`.
#[verifier::external_body]
fn fr_from_u64(v: u64) -> (e: FieldElement)
    ensures
        e@ == be_bytes(v as nat, 32),
        e.value() == v,
{
    let fr = Fr::from(v);
    FieldElement { bytes: fr.into_bigint().to_bytes_be().try_into().unwrap() }
}

/// `Fr::rand`: the element drawn from `rng` and the generator's state after
/// the draw are named `fr_rand` of its state before the draw.
#[verifier::external_body]
fn fr_random(rng: &mut StdRng) -> (e: FieldElement)
    ensures
        (e@, *final(rng)) == fr_rand(*old(rng)),
{
    let fr = Fr::rand(rng);
    FieldElement { bytes: fr.into_bigint().to_bytes_be().try_into().unwrap() }
}

} // verus!
