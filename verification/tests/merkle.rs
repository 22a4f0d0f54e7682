use beacon_core::merkle::{
    concat_children, get_index_bit, merkle_root_from_branch, parent, verify_merkle_proof,
};
use ethereum_hashing::hash32_concat;

fn hash_from_hex(s: &str) -> [u8; 32] {
    let mut out = [0u8; 32];
    for i in 0..32 {
        out[i] = u8::from_str_radix(&s[2 * i..2 * i + 2], 16).unwrap();
    }
    out
}

fn leaf(i: u8) -> [u8; 32] {
    [i + 1; 32]
}

/// The branch of leaf 5 in the tree over the eight leaves `leaf(0)` to `leaf(7)`.
fn branch_of_leaf_5() -> Vec<[u8; 32]> {
    vec![
        leaf(4),
        hash_from_hex("af0a68e2d2692b58ecda95051d5e7fe5dd3bc9f3d3f0b5260166565c694919f4"),
        hash_from_hex("2c0c4083be2badf7c9f9046d8730d21e034c1ce50f519c166d7605848b17b0d5"),
    ]
}

fn root_of_tree() -> [u8; 32] {
    hash_from_hex("c215a327df1243ec5271e106f8f03b979cadc0d1b8b10f214a5fdd11c0e6b612")
}

#[test]
fn index_bits() {
    assert!(get_index_bit(1, 0));
    assert!(!get_index_bit(1, 1));
    assert!(get_index_bit(5, 0));
    assert!(!get_index_bit(5, 1));
    assert!(get_index_bit(5, 2));
    assert!(get_index_bit(1 << 63, 63));
    assert!(!get_index_bit(u64::MAX, 64));
    assert!(!get_index_bit(u64::MAX, 1000));
}

#[test]
fn children_stand_left_before_right() {
    let node = [1u8; 32];
    let sibling = [2u8; 32];
    let mut node_first = node.to_vec();
    node_first.extend_from_slice(&sibling);
    let mut sibling_first = sibling.to_vec();
    sibling_first.extend_from_slice(&node);
    assert_eq!(concat_children(&node, &sibling, false), node_first);
    assert_eq!(concat_children(&node, &sibling, true), sibling_first);
}

#[test]
fn parent_orders_its_children() {
    let a = [1u8; 32];
    let b = [2u8; 32];
    assert_eq!(parent(&a, &b, false), hash32_concat(&a, &b));
    assert_eq!(parent(&a, &b, true), hash32_concat(&b, &a));
    assert_ne!(parent(&a, &b, false), parent(&a, &b, true));
    assert_eq!(
        parent(&leaf(4), &leaf(5), false),
        hash_from_hex("e38b0325ae6067640715997f0ef9f478600cbaeb410ebbceb7f749d90bd9d896")
    );
}

#[test]
fn known_tree_has_known_root() {
    assert_eq!(merkle_root_from_branch(&leaf(5), &branch_of_leaf_5(), 3, 5), root_of_tree());
}

#[test]
fn known_tree_agrees_with_a_tree_built_by_hand() {
    let leaves: Vec<[u8; 32]> = (0..8).map(leaf).collect();
    let level_1: Vec<[u8; 32]> =
        (0..4).map(|i| hash32_concat(&leaves[2 * i], &leaves[2 * i + 1])).collect();
    let level_2: Vec<[u8; 32]> =
        (0..2).map(|i| hash32_concat(&level_1[2 * i], &level_1[2 * i + 1])).collect();
    let root = hash32_concat(&level_2[0], &level_2[1]);
    assert_eq!(root, root_of_tree());
    for index in 0..8usize {
        let branch = vec![leaves[index ^ 1], level_1[(index >> 1) ^ 1], level_2[(index >> 2) ^ 1]];
        assert!(verify_merkle_proof(&leaves[index], &branch, 3, index as u64, &root));
    }
}

#[test]
fn valid_proof_is_accepted() {
    assert!(verify_merkle_proof(&leaf(5), &branch_of_leaf_5(), 3, 5, &root_of_tree()));
}

#[test]
fn any_flipped_bit_of_the_root_is_refused() {
    let root = root_of_tree();
    for bit in 0..256 {
        let mut wrong = root;
        wrong[bit / 8] ^= 1 << (bit % 8);
        assert!(!verify_merkle_proof(&leaf(5), &branch_of_leaf_5(), 3, 5, &wrong));
    }
}

#[test]
fn wrong_index_is_refused() {
    for index in [0u64, 1, 2, 3, 4, 6, 7] {
        assert!(!verify_merkle_proof(&leaf(5), &branch_of_leaf_5(), 3, index, &root_of_tree()));
    }
}

#[test]
fn index_bits_above_the_depth_do_not_count() {
    assert!(verify_merkle_proof(&leaf(5), &branch_of_leaf_5(), 3, 5 + 8, &root_of_tree()));
    assert!(verify_merkle_proof(&leaf(5), &branch_of_leaf_5(), 3, 5 + (1 << 40), &root_of_tree()));
}

#[test]
fn wrong_leaf_is_refused() {
    assert!(!verify_merkle_proof(&leaf(4), &branch_of_leaf_5(), 3, 5, &root_of_tree()));
    let mut tampered = leaf(5);
    tampered[31] ^= 0x80;
    assert!(!verify_merkle_proof(&tampered, &branch_of_leaf_5(), 3, 5, &root_of_tree()));
}

#[test]
fn any_flipped_bit_of_the_branch_is_refused() {
    for sibling in 0..3 {
        for bit in 0..256 {
            let mut branch = branch_of_leaf_5();
            branch[sibling][bit / 8] ^= 1 << (bit % 8);
            assert!(!verify_merkle_proof(&leaf(5), &branch, 3, 5, &root_of_tree()));
        }
    }
}

#[test]
fn branch_of_another_length_than_the_depth_is_refused() {
    assert!(!verify_merkle_proof(&leaf(5), &branch_of_leaf_5(), 2, 5, &root_of_tree()));
    assert!(!verify_merkle_proof(&leaf(5), &branch_of_leaf_5(), 4, 5, &root_of_tree()));
    assert!(!verify_merkle_proof(&leaf(5), &branch_of_leaf_5()[..2], 3, 5, &root_of_tree()));
    assert!(!verify_merkle_proof(&leaf(5), &[], 3, 5, &root_of_tree()));
}

#[test]
fn tree_of_depth_zero_is_its_leaf() {
    assert!(verify_merkle_proof(&leaf(0), &[], 0, 0, &leaf(0)));
    assert!(verify_merkle_proof(&leaf(0), &[], 0, 7, &leaf(0)));
    assert!(!verify_merkle_proof(&leaf(0), &[], 0, 0, &leaf(1)));
    assert_eq!(merkle_root_from_branch(&leaf(3), &[], 0, 9), leaf(3));
}

#[test]
fn tree_deeper_than_the_index_is_wide() {
    let branch: Vec<[u8; 32]> = (0..70).map(|i| [i as u8; 32]).collect();
    let mut node = leaf(0);
    for (level, sibling) in branch.iter().enumerate() {
        node = if level < 64 { hash32_concat(sibling, &node) } else { hash32_concat(&node, sibling) };
    }
    assert!(verify_merkle_proof(&leaf(0), &branch, 70, u64::MAX, &node));
}
