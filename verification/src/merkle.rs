//! Merkle roots and authentication paths of the note tree.
use vstd::prelude::*;
use ark_bls12_381::Fr;
use ark_ff::PrimeField;
use crate::field::{zero_encoding, FieldElement};
use crate::hex::{hex_encode, lemma_hex_roundtrip, parse_field_hex};
use crate::notes::poseidon_hash2;

verus! {

/// Root of an empty subtree of the given height: the zero element at the
/// leaves, hashed pairwise upward.
pub open spec fn zero_subtree_root(height: nat) -> Seq<u8>
    decreases height,
{
    if height == 0 {
        zero_encoding()
    } else {
        let below = zero_subtree_root((height - 1) as nat);
        poseidon_hash2(below, below)
    }
}

/// The layer above: nodes hashed in pairs from the left, the last one, where
/// it has no partner, with `filler`.
pub open spec fn parent_layer(layer: Seq<Seq<u8>>, filler: Seq<u8>) -> Seq<Seq<u8>> {
    Seq::new(
        ((layer.len() + 1) / 2) as nat,
        |i: int|
            poseidon_hash2(
                layer[2 * i],
                if 2 * i + 1 < layer.len() {
                    layer[2 * i + 1]
                } else {
                    filler
                },
            ),
    )
}

/// The layer of the tree at the given level above the leaves; a missing
/// partner at level `l` is the root of an empty subtree of height `l`.
pub open spec fn layer_at(leaves: Seq<Seq<u8>>, level: nat) -> Seq<Seq<u8>>
    decreases level,
{
    if level == 0 {
        leaves
    } else {
        parent_layer(layer_at(leaves, (level - 1) as nat), zero_subtree_root((level - 1) as nat))
    }
}

/// Root of the depth-20 Poseidon tree over the given leaves, zero leaves
/// filling the rest (`merkle::compute_root_from_leaves`); over no leaves, the
/// root of the empty tree (`merkle::empty_root`).
pub open spec fn tree_root(leaves: Seq<Seq<u8>>) -> Seq<u8> {
    if leaves.len() == 0 {
        zero_subtree_root(20)
    } else {
        layer_at(leaves, 20)[0]
    }
}

/// Canonical encodings of a list of field elements.
pub open spec fn encodings(elems: Seq<FieldElement>) -> Seq<Seq<u8>> {
    elems.map_values(|e: FieldElement| e@)
}

/// The root that an authentication path leads to from a leaf: at each level
/// the running hash is combined with the sibling, the sibling on the left
/// where the index bit is set.
pub open spec fn path_root(leaf: Seq<u8>, siblings: Seq<Seq<u8>>, indices: Seq<bool>) -> Seq<u8>
    decreases siblings.len(),
{
    if siblings.len() == 0 {
        leaf
    } else {
        let i: int = siblings.len() - 1;
        let below = path_root(leaf, siblings.drop_last(), indices);
        if indices[i] {
            poseidon_hash2(siblings[i], below)
        } else {
            poseidon_hash2(below, siblings[i])
        }
    }
}

/// An authentication path: one sibling and one direction bit per level.
#[derive(Clone, Debug)]
pub struct MerklePath {
    pub siblings: Vec<FieldElement>,
    pub indices: Vec<bool>,
}

impl MerklePath {
    /// The root this path leads to from `leaf`.
    pub open spec fn root_from(self, leaf: Seq<u8>) -> Seq<u8> {
        path_root(leaf, encodings(self.siblings@), self.indices@)
    }

    /// The path that the offline demos prove against: every sibling is the
    /// root of the empty tree and every direction bit is clear.
    pub open spec fn is_offline_path(self) -> bool {
        &&& self.siblings@.len() == 20
        &&& self.indices@.len() == 20
        &&& forall|i: int| 0 <= i < 20 ==> #[trigger] self.siblings@[i]@ == tree_root(Seq::empty())
        &&& forall|i: int| 0 <= i < 20 ==> !#[trigger] self.indices@[i]
    }

    /// Builds the offline path: the empty-tree root is read back from its
    /// text and repeated at every level.
    pub fn offline() -> (path: MerklePath)
        ensures
            path.is_offline_path(),
    {
        let depth: usize = merkle_depth();
        let text = empty_root_hex();
        let parsed = FieldElement::from_hex(text.as_str());
        let empty = match parsed {
            Some(e) => e,
            None => {
                proof {
                    assert(false);
                }
                FieldElement::zero()
            },
        };
        let mut siblings: Vec<FieldElement> = Vec::new();
        let mut indices: Vec<bool> = Vec::new();
        let mut i: usize = 0;
        while i < depth
            invariant
                depth == 20,
                i <= depth,
                siblings@.len() == i,
                indices@.len() == i,
                empty@ == tree_root(Seq::empty()),
                forall|j: int| 0 <= j < i ==> #[trigger] siblings@[j] == empty,
                forall|j: int| 0 <= j < i ==> !#[trigger] indices@[j],
            decreases depth - i,
        {
            siblings.push(empty);
            indices.push(false);
            i = i + 1;
        }
        MerklePath { siblings, indices }
    }
}

/// Depth of the note tree (`MERKLE_DEPTH`).
pub fn merkle_depth() -> (d: usize)
    ensures
        d == 20,
{
    sdk_merkle_depth()
}

/// Lower-case hexadecimal text of the root of the empty tree
/// (`merkle::empty_root_hex`).
pub fn empty_root_hex() -> (text: String)
    ensures
        text@ == hex_encode(tree_root(Seq::empty())),
        parse_field_hex(text@) == Some(tree_root(Seq::empty())),
{
    sdk_empty_root_hex()
}

/// Lower-case hexadecimal text of the root over the given leaves
/// (`merkle::compute_root_from_leaves`).
pub fn merkle_root_hex(leaves: &[FieldElement]) -> (text: String)
    ensures
        text@ == hex_encode(tree_root(encodings(leaves@))),
        parse_field_hex(text@) == Some(tree_root(encodings(leaves@))),
{
    sdk_compute_root_from_leaves(leaves)
}

/// Whether inserting the leaves moved the root away from the empty root,
/// compared on the hexadecimal texts as the demo does.
pub fn root_differs_from_empty(leaves: &[FieldElement]) -> (differs: bool)
    ensures
        differs == (tree_root(encodings(leaves@)) != tree_root(Seq::empty())),
{
    let root = merkle_root_hex(leaves);
    let empty = empty_root_hex();
    proof {
        lemma_hex_roundtrip(tree_root(encodings(leaves@)));
        lemma_hex_roundtrip(tree_root(Seq::empty()));
    }
    !(root == empty)
}

/// Law: the root over no leaves is the root of the empty tree, so
/// `merkle_root_hex` of no leaves and `empty_root_hex` give the same text.
pub proof fn law_no_leaves_empty_root(leaves: Seq<FieldElement>)
    requires
        leaves.len() == 0,
    ensures
        tree_root(encodings(leaves)) == tree_root(Seq::empty()),
        hex_encode(tree_root(encodings(leaves))) == hex_encode(tree_root(Seq::empty())),
{
    assert(encodings(leaves) =~= Seq::<Seq<u8>>::empty());
}

/// Siblings of the leftmost leaf's path: at level `l` the root of an empty
/// subtree of height `l`.
pub open spec fn zero_siblings(levels: nat) -> Seq<Seq<u8>> {
    Seq::new(levels, |l: int| zero_subtree_root(l as nat))
}

/// Direction bits of the leftmost leaf's path: all clear.
pub open spec fn leftmost_indices() -> Seq<bool> {
    Seq::new(20, |l: int| false)
}

/// The layer at each level over a single leaf holds one node: where the
/// leftmost path leads from the leaf after that many levels.
proof fn lemma_single_leaf_layer(leaf: Seq<u8>, level: nat)
    requires
        level <= 20,
    ensures
        layer_at(seq![leaf], level) == seq![path_root(leaf, zero_siblings(level), leftmost_indices())],
    decreases level,
{
    if level > 0 {
        let l = (level - 1) as nat;
        lemma_single_leaf_layer(leaf, l);
        assert(zero_siblings(level).drop_last() =~= zero_siblings(l));
        let below = layer_at(seq![leaf], l);
        let up = parent_layer(below, zero_subtree_root(l));
        assert(up =~= seq![poseidon_hash2(below[0], zero_subtree_root(l))]);
    } else {
        assert(zero_siblings(0) =~= Seq::<Seq<u8>>::empty());
    }
}

/// Law: the root of the tree over a single leaf is where the leftmost
/// authentication path leads from that leaf, its siblings the roots of the
/// empty subtrees and its direction bits clear; a proof over that path
/// attests the root that `merkle_root_hex` computes.
pub proof fn law_single_leaf_root(leaf: Seq<u8>)
    ensures
        tree_root(seq![leaf]) == path_root(leaf, zero_siblings(20), leftmost_indices()),
{
    lemma_single_leaf_layer(leaf, 20);
}

/// The node reached from `leaf` after `levels` levels, when at every level
/// the running hash is on the left and `sibling` on the right.
pub open spec fn fold_right_with(leaf: Seq<u8>, sibling: Seq<u8>, levels: nat) -> Seq<u8>
    decreases levels,
{
    if levels == 0 {
        leaf
    } else {
        poseidon_hash2(fold_right_with(leaf, sibling, (levels - 1) as nat), sibling)
    }
}

/// Every prefix of a path whose siblings are all `sibling` and whose
/// direction bits are all clear folds the leaf with that sibling.
proof fn lemma_constant_path_prefix(
    leaf: Seq<u8>,
    siblings: Seq<Seq<u8>>,
    indices: Seq<bool>,
    sibling: Seq<u8>,
    n: nat,
)
    requires
        n <= siblings.len(),
        siblings.len() <= indices.len(),
        forall|i: int| 0 <= i < siblings.len() ==> #[trigger] siblings[i] == sibling,
        forall|i: int| 0 <= i < siblings.len() ==> !#[trigger] indices[i],
    ensures
        path_root(leaf, siblings.take(n as int), indices) == fold_right_with(leaf, sibling, n),
    decreases n,
{
    if n > 0 {
        let m = (n - 1) as nat;
        lemma_constant_path_prefix(leaf, siblings, indices, sibling, m);
        assert(siblings.take(n as int).drop_last() =~= siblings.take(m as int));
        assert(siblings.take(n as int)[m as int] == siblings[m as int]);
        assert(!indices[m as int]);
    }
}

/// Law: an authentication path of twenty levels whose siblings are all the
/// empty-tree root and whose direction bits are all clear leads from any
/// leaf to the leaf hashed twenty times, each time on the left of the
/// empty-tree root.
pub proof fn law_offline_path_root(path: MerklePath, leaf: Seq<u8>)
    requires
        path.siblings@.len() == 20,
        path.indices@.len() == 20,
        forall|i: int| 0 <= i < 20 ==> #[trigger] path.siblings@[i]@ == tree_root(Seq::empty()),
        forall|i: int| 0 <= i < 20 ==> !#[trigger] path.indices@[i],
    ensures
        path.root_from(leaf) == fold_right_with(leaf, tree_root(Seq::empty()), 20),
{
    let sibs = encodings(path.siblings@);
    assert forall|i: int| 0 <= i < sibs.len() implies #[trigger] sibs[i] == tree_root(Seq::empty()) by {
        assert(path.siblings@[i]@ == tree_root(Seq::empty()));
    }
    lemma_constant_path_prefix(leaf, sibs, path.indices@, tree_root(Seq::empty()), 20);
    assert(sibs.take(20) =~= sibs);
}

/// `MERKLE_DEPTH`, the depth of the tree.
#[verifier::external_body]
fn sdk_merkle_depth() -> (d: usize)
    ensures
        d == 20,
{
    r14_sdk::MERKLE_DEPTH
}

/// `merkle::empty_root_hex`: the bare hexadecimal text of the empty-tree
/// root, which the SDK computes as the root over no leaves; the text reads
/// back as that root.
#[verifier::external_body]
fn sdk_empty_root_hex() -> (text: String)
    ensures
        text@ == hex_encode(tree_root(Seq::empty())),
        parse_field_hex(text@) == Some(tree_root(Seq::empty())),
{
    r14_sdk::merkle::empty_root_hex()
}

/// `merkle::compute_root_from_leaves`: the bare hexadecimal text of the
/// root, as `tree_root` states it; the text reads back as that root,
/// which is a canonical field encoding.
#[verifier::external_body]
fn sdk_compute_root_from_leaves(leaves: &[FieldElement]) -> (text: String)
    ensures
        text@ == hex_encode(tree_root(encodings(leaves@))),
        parse_field_hex(text@) == Some(tree_root(encodings(leaves@))),
{
    let leaves: Vec<Fr> = leaves.iter().map(|e| Fr::from_be_bytes_mod_order(&e.bytes)).collect();
    r14_sdk::merkle::compute_root_from_leaves(&leaves)
}

} // verus!
