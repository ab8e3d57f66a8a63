use anchor_lang::solana_program::keccak::hashv;
use superstream::merkle::digest_le;
use superstream::merkle::hash_pair;
use superstream::merkle::leaf_hash;
use superstream::merkle::verify;
use superstream::utils::verify as verify_from_utils;

fn tree_parent(a: [u8; 32], b: [u8; 32]) -> [u8; 32] {
    if a <= b {
        hashv(&[&a, &b]).0
    } else {
        hashv(&[&b, &a]).0
    }
}

fn tree_leaf(index: u64, claimer: [u8; 32], amount: u64) -> [u8; 32] {
    hashv(&[&index.to_le_bytes(), &claimer, &amount.to_le_bytes()]).0
}

fn tree_levels(leaves: &[[u8; 32]]) -> Vec<Vec<[u8; 32]>> {
    let mut levels = vec![leaves.to_vec()];
    while levels.last().unwrap().len() > 1 {
        let below = levels.last().unwrap().clone();
        let mut level = Vec::new();
        let mut i = 0;
        while i < below.len() {
            if i + 1 < below.len() {
                level.push(tree_parent(below[i], below[i + 1]));
            } else {
                level.push(below[i]);
            }
            i += 2;
        }
        levels.push(level);
    }
    levels
}

fn tree_proof(levels: &[Vec<[u8; 32]>], leaf_index: usize) -> Vec<[u8; 32]> {
    let mut proof = Vec::new();
    let mut at = leaf_index;
    for level in &levels[..levels.len() - 1] {
        let sibling = at ^ 1;
        if sibling < level.len() {
            proof.push(level[sibling]);
        }
        at /= 2;
    }
    proof
}

fn tree_entries(n: u64) -> Vec<[u8; 32]> {
    (0..n).map(|i| tree_leaf(i, [i as u8 + 1; 32], 100 + i)).collect()
}

#[test]
fn leaf_is_keccak_of_index_claimer_amount() {
    let claimer = [7u8; 32];
    assert_eq!(leaf_hash(3, &claimer, 250), tree_leaf(3, claimer, 250));
    assert_ne!(leaf_hash(3, &claimer, 250), leaf_hash(3, &claimer, 251));
    assert_ne!(leaf_hash(3, &claimer, 250), leaf_hash(4, &claimer, 250));
    assert_ne!(leaf_hash(3, &claimer, 250), claimer);
}

#[test]
fn parent_is_keccak_of_the_sorted_pair() {
    let low = [1u8; 32];
    let high = [2u8; 32];
    let expected = hashv(&[&low, &high]).0;
    assert_eq!(hash_pair(&low, &high), expected);
    assert_eq!(hash_pair(&high, &low), expected);
    assert_ne!(hash_pair(&low, &high), hashv(&[&high, &low]).0);
    assert_ne!(hash_pair(&low, &high), low);
    assert_ne!(hash_pair(&low, &high), high);
}

#[test]
fn parent_of_known_digests() {
    let zero = [0u8; 32];
    let parent = hash_pair(&zero, &zero);
    // Keccak-256 of 64 zero bytes.
    let expected: [u8; 32] = [
        0xad, 0x32, 0x28, 0xb6, 0x76, 0xf7, 0xd3, 0xcd, 0x42, 0x84, 0xa5, 0x44, 0x3f, 0x17, 0xf1,
        0x96, 0x2b, 0x36, 0xe4, 0x91, 0xb3, 0x0a, 0x40, 0xb2, 0x40, 0x58, 0x49, 0xe5, 0x97, 0xba,
        0x5f, 0xb5,
    ];
    assert_eq!(parent, expected);
}

#[test]
fn digests_are_ordered_byte_by_byte() {
    let mut a = [0u8; 32];
    let mut b = [0u8; 32];
    assert!(digest_le(&a, &b));
    a[31] = 1;
    assert!(!digest_le(&a, &b));
    assert!(digest_le(&b, &a));
    b[0] = 1;
    assert!(digest_le(&a, &b));
    assert!(!digest_le(&b, &a));
    a[0] = 200;
    b[0] = 199;
    b[1] = 255;
    assert!(!digest_le(&a, &b));
    assert!(digest_le(&b, &a));
}

#[test]
fn every_generated_proof_verifies() {
    for n in 1..=9u64 {
        let leaves = tree_entries(n);
        let levels = tree_levels(&leaves);
        let root = levels.last().unwrap()[0];
        for (i, leaf) in leaves.iter().enumerate() {
            assert!(verify(tree_proof(&levels, i), root, *leaf));
        }
    }
}

#[test]
fn empty_proof_verifies_the_root_itself() {
    let leaf = tree_leaf(0, [1u8; 32], 5);
    assert!(verify(Vec::new(), leaf, leaf));
    assert!(verify_from_utils(Vec::new(), leaf, leaf));
    assert!(!verify(Vec::new(), [0u8; 32], leaf));
}

#[test]
fn flipped_bits_are_rejected() {
    let leaves = tree_entries(8);
    let levels = tree_levels(&leaves);
    let root = levels.last().unwrap()[0];
    let proof = tree_proof(&levels, 5);
    assert_eq!(proof.len(), 3);
    assert!(verify(proof.clone(), root, leaves[5]));
    for byte in 0..32 {
        for bit in 0..8 {
            let mut leaf = leaves[5];
            leaf[byte] ^= 1 << bit;
            assert!(!verify(proof.clone(), root, leaf));
            let mut wrong_root = root;
            wrong_root[byte] ^= 1 << bit;
            assert!(!verify(proof.clone(), wrong_root, leaves[5]));
            for element in 0..proof.len() {
                let mut wrong_proof = proof.clone();
                wrong_proof[element][byte] ^= 1 << bit;
                assert!(!verify(wrong_proof, root, leaves[5]));
            }
        }
    }
}

#[test]
fn proof_of_another_leaf_is_rejected() {
    let leaves = tree_entries(8);
    let levels = tree_levels(&leaves);
    let root = levels.last().unwrap()[0];
    assert!(!verify(tree_proof(&levels, 2), root, leaves[5]));
    let mut short = tree_proof(&levels, 5);
    short.pop();
    assert!(!verify(short, root, leaves[5]));
}
