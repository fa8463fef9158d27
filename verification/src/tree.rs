//! The tree that an honest house builds, and why each of its tiles opens.
//!
//! A board is committed to as the root of a binary tree over 32 leaf slots.
//! Slot `i` holds the leaf hash of tile `i`; the slots beyond the board hold
//! 32 zero bytes. The proof of a slot is the list of the siblings on the way
//! up, and its path is its own number, read bit by bit from the lowest.

use vstd::prelude::*;
use vstd::array::spec_array_fill_for_copy_type;
use crate::digest::sha256;
use crate::game::MAX_BOARD_SIZE;
use crate::merkle::{fold_path, leaf_hash, opens, path_bit, LEAF_SLOTS, MERKLE_DEPTH};

verus! {

/// What stands in each leaf slot beyond the board: 32 zero bytes.
pub open spec fn padding_leaf() -> [u8; 32] {
    spec_array_fill_for_copy_type::<u8, 32>(0u8)
}

/// The leaves of the board whose tile `i` has the mine flag `flags[i]` and the
/// salt `nonces[i]`.
pub open spec fn board_leaves(flags: Seq<u8>, nonces: Seq<[u8; 32]>) -> Seq<[u8; 32]>
    recommends
        flags.len() == MAX_BOARD_SIZE,
        nonces.len() == MAX_BOARD_SIZE,
{
    Seq::new(
        LEAF_SLOTS as nat,
        |slot: int|
            if slot < MAX_BOARD_SIZE {
                leaf_hash(slot as u8, flags[slot], nonces[slot])
            } else {
                padding_leaf()
            },
    )
}

/// The commitment to a board: the root of the tree over its leaves.
pub open spec fn board_commitment(flags: Seq<u8>, nonces: Seq<[u8; 32]>) -> [u8; 32] {
    tree_root(board_leaves(flags, nonces))
}

/// The number of nodes on `level`: half as many as on the level below.
pub open spec fn slots_on(level: nat) -> nat
    decreases level,
{
    if level == 0 {
        LEAF_SLOTS as nat
    } else {
        slots_on((level - 1) as nat) / 2
    }
}

/// The hashes on `level` of the tree over `leaves`. Level 0 holds the leaves;
/// each node above holds the hash of its two children, left before right.
pub open spec fn tree_level(leaves: Seq<[u8; 32]>, level: nat) -> Seq<[u8; 32]>
    decreases level,
{
    if level == 0 {
        leaves
    } else {
        let below = tree_level(leaves, (level - 1) as nat);
        Seq::new(below.len() / 2, |j: int| sha256(below[2 * j]@ + below[2 * j + 1]@))
    }
}

/// The root of the tree over `leaves`.
pub open spec fn tree_root(leaves: Seq<[u8; 32]>) -> [u8; 32] {
    tree_level(leaves, MERKLE_DEPTH as nat)[0]
}

/// The number, on `level`, of the node above leaf slot `position`.
pub open spec fn node_index(position: nat, level: nat) -> nat
    decreases level,
{
    if level == 0 {
        position
    } else {
        node_index(position, (level - 1) as nat) / 2
    }
}

/// The number of the other child of the same parent.
pub open spec fn sibling_index(index: nat) -> nat {
    if index % 2 == 0 {
        index + 1
    } else {
        (index - 1) as nat
    }
}

/// `proof` lists the siblings on the way up from leaf slot `position`.
pub open spec fn is_proof_for(leaves: Seq<[u8; 32]>, position: nat, proof: [[u8; 32]; 5]) -> bool {
    forall|level: nat|
        level < MERKLE_DEPTH ==> proof[level as int] == #[trigger] tree_level(
            leaves,
            level,
        )[sibling_index(node_index(position, level)) as int]
}

/// `path_bits` says, level by level, on which side the way up from leaf slot
/// `position` stands.
pub open spec fn is_path_for(position: nat, path_bits: u32) -> bool {
    forall|level: nat|
        level < MERKLE_DEPTH ==> #[trigger] path_bit(path_bits, level) == (node_index(
            position,
            level,
        ) % 2 == 1)
}

/// The depth is the least that gives every tile of the board a leaf slot.
pub proof fn lemma_depth_fits_board()
    ensures
        slots_on(0) == LEAF_SLOTS,
        slots_on(MERKLE_DEPTH as nat) == 1,
        MAX_BOARD_SIZE <= LEAF_SLOTS,
        LEAF_SLOTS / 2 < MAX_BOARD_SIZE,
{
    reveal_with_fuel(slots_on, 6);
}

/// Each level has half the nodes of the level below, down to the single root.
pub proof fn lemma_tree_shape(leaves: Seq<[u8; 32]>, level: nat)
    requires
        leaves.len() == LEAF_SLOTS,
        level <= MERKLE_DEPTH,
    ensures
        tree_level(leaves, level).len() == slots_on(level),
        slots_on(MERKLE_DEPTH as nat) == 1,
        level < MERKLE_DEPTH ==> slots_on(level) % 2 == 0 && slots_on(level) >= 2,
    decreases level,
{
    reveal_with_fuel(slots_on, 6);
    if level > 0 {
        lemma_tree_shape(leaves, (level - 1) as nat);
    }
}

/// The node above a leaf slot is on the tree, and so is its sibling.
pub proof fn lemma_node_on_tree(position: nat, level: nat)
    requires
        position < LEAF_SLOTS,
        level <= MERKLE_DEPTH,
    ensures
        node_index(position, level) < slots_on(level),
        level < MERKLE_DEPTH ==> sibling_index(node_index(position, level)) < slots_on(level),
    decreases level,
{
    reveal_with_fuel(slots_on, 6);
    if level > 0 {
        lemma_node_on_tree(position, (level - 1) as nat);
    }
}

/// Folding a leaf with its own siblings along its own path walks up the tree.
pub proof fn lemma_fold_walks_tree(
    leaves: Seq<[u8; 32]>,
    position: nat,
    proof: [[u8; 32]; 5],
    path_bits: u32,
    levels: nat,
)
    requires
        leaves.len() == LEAF_SLOTS,
        position < LEAF_SLOTS,
        is_proof_for(leaves, position, proof),
        is_path_for(position, path_bits),
        levels <= MERKLE_DEPTH,
    ensures
        fold_path(leaves[position as int], proof, path_bits, levels) == tree_level(
            leaves,
            levels,
        )[node_index(position, levels) as int],
    decreases levels,
{
    if levels > 0 {
        let level = (levels - 1) as nat;
        lemma_fold_walks_tree(leaves, position, proof, path_bits, level);
        lemma_tree_shape(leaves, level);
        lemma_node_on_tree(position, level);
        let below = tree_level(leaves, level);
        let index = node_index(position, level);
        assert(proof[level as int] == below[sibling_index(index) as int]);
        assert(path_bit(path_bits, level) == (index % 2 == 1));
        let parent = (index / 2) as int;
        assert(tree_level(leaves, levels)[parent] == sha256(
            below[2 * parent]@ + below[2 * parent + 1]@,
        ));
    }
}

/// The path of a leaf slot is its own number.
pub proof fn lemma_position_is_its_path(position: u32)
    requires
        position < LEAF_SLOTS,
    ensures
        is_path_for(position as nat, position),
{
    reveal_with_fuel(node_index, 6);
    let p = position;
    assert((p >> 0u32) & 1 == p % 2) by (bit_vector);
    assert((p >> 1u32) & 1 == (p / 2) % 2) by (bit_vector);
    assert((p >> 2u32) & 1 == ((p / 2) / 2) % 2) by (bit_vector);
    assert((p >> 3u32) & 1 == (((p / 2) / 2) / 2) % 2) by (bit_vector);
    assert((p >> 4u32) & 1 == ((((p / 2) / 2) / 2) / 2) % 2) by (bit_vector);
    assert forall|level: nat| level < MERKLE_DEPTH implies #[trigger] path_bit(position, level)
        == (node_index(position as nat, level) % 2 == 1) by {
        if level == 0 {
        } else if level == 1 {
        } else if level == 2 {
        } else if level == 3 {
        } else {
            assert(level == 4);
        }
    }
}

/// Every tile of a committed board opens. Where the commitment is the root of
/// the tree over `leaves`, the leaf at `position` is the leaf hash of a tile,
/// and the proof lists the siblings of that position, the claim leads to the
/// commitment along the position's own path.
pub proof fn lemma_committed_tile_opens(
    leaves: Seq<[u8; 32]>,
    position: u32,
    tile_index: u8,
    is_mine: u8,
    nonce: [u8; 32],
    proof: [[u8; 32]; 5],
)
    requires
        leaves.len() == LEAF_SLOTS,
        position < LEAF_SLOTS,
        leaves[position as int] == leaf_hash(tile_index, is_mine, nonce),
        is_proof_for(leaves, position as nat, proof),
    ensures
        opens(tree_root(leaves), tile_index, is_mine, nonce, proof, position),
{
    reveal_with_fuel(node_index, 6);
    lemma_position_is_its_path(position);
    lemma_fold_walks_tree(leaves, position as nat, proof, position, MERKLE_DEPTH as nat);
    assert(node_index(position as nat, MERKLE_DEPTH as nat) == 0);
}

/// Every tile of a committed board opens: with its own index, flag and salt,
/// the siblings of its slot as the proof and its index as the path, the claim
/// leads to the board's commitment.
pub proof fn lemma_board_tile_opens(
    flags: Seq<u8>,
    nonces: Seq<[u8; 32]>,
    tile_index: u8,
    proof: [[u8; 32]; 5],
)
    requires
        flags.len() == MAX_BOARD_SIZE,
        nonces.len() == MAX_BOARD_SIZE,
        tile_index < MAX_BOARD_SIZE,
        is_proof_for(board_leaves(flags, nonces), tile_index as nat, proof),
    ensures
        opens(
            board_commitment(flags, nonces),
            tile_index,
            flags[tile_index as int],
            nonces[tile_index as int],
            proof,
            tile_index as u32,
        ),
{
    lemma_committed_tile_opens(
        board_leaves(flags, nonces),
        tile_index as u32,
        tile_index,
        flags[tile_index as int],
        nonces[tile_index as int],
        proof,
    );
}

} // verus!
