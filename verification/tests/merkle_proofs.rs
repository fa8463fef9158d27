use anchor_lang::solana_program::hash::hashv;
use mines::digest::same_bytes;
use mines::merkle::{compute_leaf_hash, compute_merkle_root, verify_tile, MERKLE_DEPTH};

const LEAF_ZERO: [u8; 32] = [
    116, 43, 59, 158, 27, 199, 87, 27, 7, 135, 18, 41, 159, 142, 243, 35, 38, 162, 119, 6, 221,
    191, 158, 167, 34, 137, 113, 235, 113, 180, 175, 252,
];

fn counting_nonce() -> [u8; 32] {
    let mut nonce = [0u8; 32];
    for (i, byte) in nonce.iter_mut().enumerate() {
        *byte = i as u8;
    }
    nonce
}

fn sample_proof() -> [[u8; 32]; 5] {
    [[1u8; 32], [2u8; 32], [3u8; 32], [4u8; 32], [5u8; 32]]
}

/// The root as the four-part and two-part hashes of the outside crate give it.
fn reference_root(leaf: [u8; 32], proof: &[[u8; 32]; 5], path_bits: u32) -> [u8; 32] {
    let mut hash = leaf;
    for (level, sibling) in proof.iter().enumerate() {
        hash = if (path_bits >> level) & 1 == 1 {
            hashv(&[&sibling[..], &hash[..]]).to_bytes()
        } else {
            hashv(&[&hash[..], &sibling[..]]).to_bytes()
        };
    }
    hash
}

#[test]
fn depth_covers_the_board() {
    assert_eq!(MERKLE_DEPTH, 5);
    assert!(1usize << MERKLE_DEPTH >= mines::game::MAX_BOARD_SIZE);
    assert!(1usize << (MERKLE_DEPTH - 1) < mines::game::MAX_BOARD_SIZE);
}

#[test]
fn leaf_hash_known_answer_all_zero() {
    assert_eq!(compute_leaf_hash(0, 0, &[0u8; 32]), LEAF_ZERO);
}

#[test]
fn leaf_hash_known_answer_mine() {
    let expected: [u8; 32] = [
        110, 54, 114, 132, 29, 153, 91, 20, 6, 125, 236, 69, 43, 166, 7, 249, 48, 25, 95, 99, 88,
        62, 108, 199, 210, 204, 83, 24, 166, 28, 48, 169,
    ];
    assert_eq!(compute_leaf_hash(5, 1, &counting_nonce()), expected);
}

#[test]
fn leaf_hash_known_answer_last_tile() {
    let expected: [u8; 32] = [
        17, 29, 96, 24, 30, 15, 70, 230, 184, 173, 169, 252, 20, 47, 28, 32, 154, 194, 162, 30,
        64, 143, 73, 150, 140, 57, 221, 74, 181, 238, 74, 217,
    ];
    assert_eq!(compute_leaf_hash(24, 0, &[255u8; 32]), expected);
}

#[test]
fn leaf_hash_is_the_hash_of_tag_index_flag_and_nonce() {
    let nonce = counting_nonce();
    for tile_index in [0u8, 1, 7, 24, 25, 200, 255] {
        for is_mine in [0u8, 1, 2, 255] {
            let index_bytes = (tile_index as u32).to_le_bytes();
            let flag = [is_mine];
            let expected = hashv(&[b"leaf", &index_bytes[..], &flag[..], &nonce[..]]).to_bytes();
            assert_eq!(compute_leaf_hash(tile_index, is_mine, &nonce), expected);
        }
    }
}

#[test]
fn leaf_hash_is_not_its_input() {
    let nonce = counting_nonce();
    let leaf = compute_leaf_hash(3, 0, &nonce);
    assert_ne!(leaf, nonce);
    assert_ne!(leaf, [0u8; 32]);
}

#[test]
fn leaf_hash_depends_on_each_part() {
    let nonce = counting_nonce();
    let base = compute_leaf_hash(3, 0, &nonce);
    assert_ne!(compute_leaf_hash(2, 0, &nonce), base);
    assert_ne!(compute_leaf_hash(3, 1, &nonce), base);
    let mut other = nonce;
    other[31] ^= 1;
    assert_ne!(compute_leaf_hash(3, 0, &other), base);
}

#[test]
fn root_known_answer_all_left() {
    let expected: [u8; 32] = [
        80, 40, 15, 159, 210, 107, 86, 176, 155, 214, 165, 87, 75, 44, 177, 12, 55, 37, 16, 112,
        59, 140, 25, 205, 106, 152, 213, 88, 239, 184, 143, 25,
    ];
    assert_eq!(compute_merkle_root(LEAF_ZERO, &sample_proof(), 0), expected);
}

#[test]
fn root_known_answer_mixed_path() {
    let expected: [u8; 32] = [
        85, 10, 228, 72, 137, 101, 209, 15, 133, 17, 210, 206, 248, 42, 20, 31, 106, 123, 142,
        149, 107, 112, 107, 123, 137, 161, 140, 35, 117, 13, 134, 181,
    ];
    assert_eq!(compute_merkle_root(LEAF_ZERO, &sample_proof(), 0b01010), expected);
}

#[test]
fn root_known_answer_all_right() {
    let expected: [u8; 32] = [
        143, 255, 151, 199, 115, 110, 92, 104, 84, 151, 106, 237, 226, 235, 252, 25, 231, 70, 13,
        23, 46, 161, 185, 0, 63, 109, 220, 103, 80, 96, 110, 8,
    ];
    assert_eq!(compute_merkle_root(LEAF_ZERO, &sample_proof(), 31), expected);
}

#[test]
fn root_agrees_with_pairwise_hashing_on_every_path() {
    let leaf = compute_leaf_hash(9, 1, &counting_nonce());
    let proof = sample_proof();
    for path_bits in 0u32..32 {
        assert_eq!(
            compute_merkle_root(leaf, &proof, path_bits),
            reference_root(leaf, &proof, path_bits)
        );
    }
}

#[test]
fn root_differs_on_every_path() {
    let proof = sample_proof();
    let mut roots: Vec<[u8; 32]> = Vec::new();
    for path_bits in 0u32..32 {
        let root = compute_merkle_root(LEAF_ZERO, &proof, path_bits);
        assert!(!roots.contains(&root));
        roots.push(root);
    }
}

#[test]
fn root_reads_only_the_five_lowest_path_bits() {
    let proof = sample_proof();
    let root = compute_merkle_root(LEAF_ZERO, &proof, 0b10110);
    assert_eq!(compute_merkle_root(LEAF_ZERO, &proof, 0b10110 | (1 << 5)), root);
    assert_eq!(compute_merkle_root(LEAF_ZERO, &proof, 0b10110 | (1 << 31)), root);
    assert_eq!(compute_merkle_root(LEAF_ZERO, &proof, 0xffff_fff6), root);
}

#[test]
fn root_is_unchanged_by_a_turn_where_sibling_is_the_running_hash() {
    let mut proof = sample_proof();
    proof[0] = LEAF_ZERO;
    assert_eq!(
        compute_merkle_root(LEAF_ZERO, &proof, 0),
        compute_merkle_root(LEAF_ZERO, &proof, 1)
    );
}

#[test]
fn verify_tile_accepts_the_committed_claim() {
    let nonce = counting_nonce();
    let proof = sample_proof();
    let commitment = reference_root(compute_leaf_hash(4, 0, &nonce), &proof, 4);
    assert!(verify_tile(&commitment, 4, 0, &nonce, &proof, 4));
}

#[test]
fn verify_tile_rejects_every_single_bit_change() {
    let nonce = counting_nonce();
    let proof = sample_proof();
    let commitment = compute_merkle_root(compute_leaf_hash(4, 0, &nonce), &proof, 4);
    for bit in 0..8 {
        assert!(!verify_tile(&commitment, 4 ^ (1 << bit), 0, &nonce, &proof, 4));
        assert!(!verify_tile(&commitment, 4, 1 << bit, &nonce, &proof, 4));
    }
    for byte in 0..32 {
        for bit in 0..8 {
            let mut changed = nonce;
            changed[byte] ^= 1 << bit;
            assert!(!verify_tile(&commitment, 4, 0, &changed, &proof, 4));
            for level in 0..5 {
                let mut changed = proof;
                changed[level][byte] ^= 1 << bit;
                assert!(!verify_tile(&commitment, 4, 0, &nonce, &changed, 4));
            }
        }
    }
    for bit in 0..32 {
        assert!(!verify_tile(&commitment, 4, 0, &nonce, &proof, 4 ^ (1 << bit)));
    }
    let mut changed = commitment;
    changed[0] ^= 1;
    assert!(!verify_tile(&changed, 4, 0, &nonce, &proof, 4));
}

#[test]
fn same_bytes_compares_all_positions() {
    let a = counting_nonce();
    assert!(same_bytes(&a, &a));
    assert!(same_bytes(&[0u8; 32], &[0u8; 32]));
    for i in 0..32 {
        let mut b = a;
        b[i] ^= 0x80;
        assert!(!same_bytes(&a, &b));
        assert!(!same_bytes(&b, &a));
    }
}

#[test]
fn encoded_leaf_is_tag_index_flag_and_nonce() {
    let nonce = counting_nonce();
    let mut expected: Vec<u8> = vec![b'l', b'e', b'a', b'f', 5, 0, 0, 0, 1];
    expected.extend_from_slice(&nonce);
    assert_eq!(mines::merkle::encode_leaf(5, 1, &nonce), expected);
    assert_eq!(expected.len(), 41);

    let bytes = mines::merkle::encode_leaf(255, 0, &[0u8; 32]);
    assert_eq!(&bytes[..9], &[0x6c, 0x65, 0x61, 0x66, 255, 0, 0, 0, 0]);
    assert_eq!(&bytes[9..], &[0u8; 32]);
}

#[test]
fn encoded_node_puts_the_right_child_second() {
    let current = [0xaau8; 32];
    let sibling = [0xbbu8; 32];
    let left = mines::merkle::encode_node(&current, &sibling, false);
    assert_eq!(&left[..32], &current);
    assert_eq!(&left[32..], &sibling);
    let right = mines::merkle::encode_node(&current, &sibling, true);
    assert_eq!(&right[..32], &sibling);
    assert_eq!(&right[32..], &current);
    assert_eq!(left.len(), 64);
    assert_eq!(right.len(), 64);
}

#[test]
fn leaf_hash_is_the_digest_of_the_encoded_leaf() {
    let nonce = counting_nonce();
    let bytes = mines::merkle::encode_leaf(17, 1, &nonce);
    assert_eq!(compute_leaf_hash(17, 1, &nonce), hashv(&[&bytes[..]]).to_bytes());
}

#[test]
fn verify_tile_rejects_a_path_above_the_tree() {
    let nonce = [0u8; 32];
    let proof = [[0u8; 32]; 5];
    let commitment = compute_merkle_root(compute_leaf_hash(0, 0, &nonce), &proof, 0);
    assert!(verify_tile(&commitment, 0, 0, &nonce, &proof, 0));
    assert!(!verify_tile(&commitment, 0, 0, &nonce, &proof, 32));
    assert!(!verify_tile(&commitment, 0, 0, &nonce, &proof, 1 << 31));
    assert!(!verify_tile(&commitment, 0, 0, &nonce, &proof, u32::MAX));
    assert_eq!(compute_merkle_root(compute_leaf_hash(0, 0, &nonce), &proof, 32), commitment);
    assert_eq!(mines::merkle::LEAF_SLOTS, 32);
}

#[test]
fn verify_tile_accepts_every_path_within_the_tree() {
    let leaf_nonce = counting_nonce();
    let proof = sample_proof();
    for path_bits in 0u32..32 {
        let commitment =
            reference_root(compute_leaf_hash(9, 1, &leaf_nonce), &proof, path_bits);
        assert!(verify_tile(&commitment, 9, 1, &leaf_nonce, &proof, path_bits));
        assert!(!verify_tile(&commitment, 9, 1, &leaf_nonce, &proof, path_bits + 32));
    }
}
