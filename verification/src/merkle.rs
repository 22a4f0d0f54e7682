//! Recomputation of a Merkle root from a leaf, the siblings on its path and its index.

use crate::hashing::{hash, sha256};
use crate::types::{hash_eq, Hash256};
use vstd::arithmetic::div_mod::lemma_basic_div;
use vstd::arithmetic::power2::{lemma2_to64_rest, lemma_pow2_strictly_increases, pow2};
use vstd::bits::lemma_u64_shr_is_div;
use vstd::prelude::*;

verus! {

/// Bit `level` of `index`, counted from the least significant bit. An index has no
/// bits set at level 64 or above.
pub open spec fn index_bit(index: u64, level: nat) -> bool {
    level < 64 && (index >> (level as u64)) & 1 == 1
}

/// A node and its sibling as they stand in the tree: the left one first.
pub open spec fn spec_children(node: Seq<u8>, sibling: Seq<u8>, node_is_right: bool) -> Seq<u8> {
    if node_is_right {
        sibling + node
    } else {
        node + sibling
    }
}

/// The parent of `node` and `sibling`: the digest of the two as they stand in the tree.
pub open spec fn spec_parent(node: Seq<u8>, sibling: Seq<u8>, node_is_right: bool) -> Seq<u8> {
    sha256(spec_children(node, sibling, node_is_right))
}

/// The node `depth` levels above `leaf` on the path that `index` selects, where
/// `branch[i]` is the sibling met at level `i`.
pub open spec fn spec_merkle_root_from_branch(
    leaf: Seq<u8>,
    branch: Seq<Hash256>,
    depth: nat,
    index: u64,
) -> Seq<u8>
    decreases depth,
{
    if depth == 0 {
        leaf
    } else {
        let level = (depth - 1) as nat;
        spec_parent(
            spec_merkle_root_from_branch(leaf, branch, level, index),
            branch[level as int]@,
            index_bit(index, level),
        )
    }
}

/// Whether `branch` has `depth` siblings and leads from `leaf` at `index` to `root`.
pub open spec fn spec_verify_merkle_proof(
    leaf: Hash256,
    branch: Seq<Hash256>,
    depth: nat,
    index: u64,
    root: Hash256,
) -> bool {
    branch.len() == depth && spec_merkle_root_from_branch(leaf@, branch, depth, index) == root@
}

/// Whether bit `level` of `index` is set.
pub fn get_index_bit(index: u64, level: usize) -> (bit: bool)
    ensures
        bit == index_bit(index, level as nat),
{
    level < 64 && (index >> (level as u64)) & 1 == 1
}

/// Writes `node` and `sibling` one after the other as they stand in the tree: the
/// left one first.
pub fn concat_children(node: &Hash256, sibling: &Hash256, node_is_right: bool) -> (pair: Vec<u8>)
    ensures
        pair@ == spec_children(node@, sibling@, node_is_right),
        pair@.len() == 64,
{
    let mut pair: Vec<u8> = Vec::new();
    if node_is_right {
        pair.extend_from_slice(sibling.as_slice());
        pair.extend_from_slice(node.as_slice());
        assert(pair@ =~= sibling@ + node@);
    } else {
        pair.extend_from_slice(node.as_slice());
        pair.extend_from_slice(sibling.as_slice());
        assert(pair@ =~= node@ + sibling@);
    }
    pair
}

/// Hashes `node` together with `sibling`, in the order that `node_is_right` gives.
pub fn parent(node: &Hash256, sibling: &Hash256, node_is_right: bool) -> (up: Hash256)
    ensures
        up@ == spec_parent(node@, sibling@, node_is_right),
{
    let pair = concat_children(node, sibling, node_is_right);
    hash(pair.as_slice())
}

/// Computes the root that `leaf` at `index` has under the siblings in `branch`.
pub fn merkle_root_from_branch(leaf: &Hash256, branch: &[Hash256], depth: usize, index: u64) -> (root:
    Hash256)
    requires
        branch@.len() == depth,
    ensures
        root@ == spec_merkle_root_from_branch(leaf@, branch@, depth as nat, index),
{
    let mut node: Hash256 = *leaf;
    let mut level: usize = 0;
    while level < depth
        invariant
            level <= depth,
            branch@.len() == depth,
            node@ == spec_merkle_root_from_branch(leaf@, branch@, level as nat, index),
        decreases depth - level,
    {
        let bit = get_index_bit(index, level);
        node = parent(&node, &branch[level], bit);
        level += 1;
    }
    node
}

/// Checks that `leaf` at `index` lies under `root`, given the `depth` siblings on its
/// path.
pub fn verify_merkle_proof(
    leaf: &Hash256,
    branch: &[Hash256],
    depth: usize,
    index: u64,
    root: &Hash256,
) -> (valid: bool)
    ensures
        valid == spec_verify_merkle_proof(*leaf, branch@, depth as nat, index, *root),
{
    if branch.len() == depth {
        let computed = merkle_root_from_branch(leaf, branch, depth, index);
        hash_eq(&computed, root)
    } else {
        false
    }
}

/// Bit `level` of an index is its binary digit of weight two to the power `level`.
pub proof fn lemma_index_bit_is_binary_digit(index: u64, level: nat)
    ensures
        index_bit(index, level) == ((index as nat / pow2(level)) % 2 == 1),
{
    if level < 64 {
        let shifted = index >> (level as u64);
        lemma_u64_shr_is_div(index, level as u64);
        assert(shifted & 1 == shifted % 2) by (bit_vector);
    } else {
        lemma2_to64_rest();
        if level > 64 {
            lemma_pow2_strictly_increases(64, level);
        }
        lemma_basic_div(index as int, pow2(level) as int);
    }
}

} // verus!
