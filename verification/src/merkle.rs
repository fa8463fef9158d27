//! Merkle authentication of single tiles against a board commitment.
//!
//! The house commits to a whole board with one root. A tile is opened by
//! giving its leaf data, the sibling hashes on the way to the root, and one
//! bit per level that says on which side the running hash stands. A path has
//! one bit for each level and no other: a path with a bit set above the tree
//! opens nothing.

use vstd::prelude::*;
use crate::digest::{append_digest, same_bytes, sha256, sha256_of};

verus! {

/// Number of levels between a leaf and the root: enough for 32 leaf slots.
pub const MERKLE_DEPTH: usize = 5;

/// Number of leaf slots of a tree, two to the depth: every path is below it.
pub const LEAF_SLOTS: u32 = 32;

/// The bytes of the domain tag `"leaf"`.
pub open spec fn leaf_tag() -> Seq<u8> {
    seq![0x6cu8, 0x65u8, 0x61u8, 0x66u8]
}

/// What is hashed for one tile: the tag, the index as 32 little-endian bits,
/// the mine flag as one byte, and the tile's secret salt.
pub open spec fn leaf_preimage(tile_index: u8, is_mine: u8, nonce: [u8; 32]) -> Seq<u8> {
    leaf_tag() + seq![tile_index, 0u8, 0u8, 0u8] + seq![is_mine] + nonce@
}

/// The leaf hash of one tile.
pub open spec fn leaf_hash(tile_index: u8, is_mine: u8, nonce: [u8; 32]) -> [u8; 32] {
    sha256(leaf_preimage(tile_index, is_mine, nonce))
}

/// Bit `level` of `path_bits`: true where the running hash is the right child.
pub open spec fn path_bit(path_bits: u32, level: nat) -> bool {
    (path_bits >> (level as u32)) & 1 == 1
}

/// Whether a path stays within the tree: no bit is set at or above the depth.
pub open spec fn path_in_tree(path_bits: u32) -> bool {
    path_bits < LEAF_SLOTS
}

/// What is hashed at one inner node.
pub open spec fn node_preimage(current: [u8; 32], sibling: [u8; 32], is_right: bool) -> Seq<u8> {
    if is_right {
        sibling@ + current@
    } else {
        current@ + sibling@
    }
}

/// What is hashed at level `level` on the way up from `current`.
pub open spec fn level_preimage(
    current: [u8; 32],
    proof: [[u8; 32]; 5],
    path_bits: u32,
    level: nat,
) -> Seq<u8>
    recommends
        level < MERKLE_DEPTH,
{
    node_preimage(
        fold_path(current, proof, path_bits, level),
        proof[level as int],
        path_bit(path_bits, level),
    )
}

/// The running hash after the lowest `levels` levels have been folded in.
pub open spec fn fold_path(
    current: [u8; 32],
    proof: [[u8; 32]; 5],
    path_bits: u32,
    levels: nat,
) -> [u8; 32]
    recommends
        levels <= MERKLE_DEPTH,
    decreases levels,
{
    if levels == 0 {
        current
    } else {
        let level = (levels - 1) as nat;
        sha256(
            node_preimage(
                fold_path(current, proof, path_bits, level),
                proof[level as int],
                path_bit(path_bits, level),
            ),
        )
    }
}

/// The root that a leaf hash, a proof and a path lead to.
pub open spec fn merkle_root(current: [u8; 32], proof: [[u8; 32]; 5], path_bits: u32) -> [u8; 32] {
    fold_path(current, proof, path_bits, MERKLE_DEPTH as nat)
}

/// Whether a claim about one tile is consistent with `commitment`: its path
/// stays within the tree, and its leaf and its proof lead to the commitment
/// along that path.
pub open spec fn opens(
    commitment: [u8; 32],
    tile_index: u8,
    is_mine: u8,
    nonce: [u8; 32],
    proof: [[u8; 32]; 5],
    path_bits: u32,
) -> bool {
    &&& path_in_tree(path_bits)
    &&& merkle_root(leaf_hash(tile_index, is_mine, nonce), proof, path_bits) == commitment
}

/// Writes out what is hashed for one tile.
pub fn encode_leaf(tile_index: u8, is_mine: u8, leaf_nonce: &[u8; 32]) -> (bytes: Vec<u8>)
    ensures
        bytes@ == leaf_preimage(tile_index, is_mine, *leaf_nonce),
{
    let mut buf: Vec<u8> = Vec::with_capacity(41);
    buf.push(0x6c);
    buf.push(0x65);
    buf.push(0x61);
    buf.push(0x66);
    buf.push(tile_index);
    buf.push(0);
    buf.push(0);
    buf.push(0);
    buf.push(is_mine);
    append_digest(&mut buf, leaf_nonce);
    assert(buf@ =~= leaf_preimage(tile_index, is_mine, *leaf_nonce));
    buf
}

/// Writes out what is hashed at one inner node: the running hash and its
/// sibling, the running hash second where it is the right child.
pub fn encode_node(current: &[u8; 32], sibling: &[u8; 32], is_right: bool) -> (bytes: Vec<u8>)
    ensures
        bytes@ == node_preimage(*current, *sibling, is_right),
{
    let mut buf: Vec<u8> = Vec::with_capacity(64);
    if is_right {
        append_digest(&mut buf, sibling);
        append_digest(&mut buf, current);
    } else {
        append_digest(&mut buf, current);
        append_digest(&mut buf, sibling);
    }
    buf
}

/// Hashes one tile's position, mine flag and salt into its leaf.
pub fn compute_leaf_hash(tile_index: u8, is_mine: u8, leaf_nonce: &[u8; 32]) -> (leaf: [u8; 32])
    ensures
        leaf == leaf_hash(tile_index, is_mine, *leaf_nonce),
{
    let bytes = encode_leaf(tile_index, is_mine, leaf_nonce);
    sha256_of(bytes.as_slice())
}

/// Folds a leaf hash with its proof, bottom-up, into the root it implies. One
/// bit of the path is read on each level; whether the path stays within the
/// tree is for `verify_tile` to say.
pub fn compute_merkle_root(current: [u8; 32], proof: &[[u8; 32]; 5], path_bits: u32) -> (root:
    [u8; 32])
    ensures
        root == merkle_root(current, *proof, path_bits),
{
    let mut hash = current;
    let mut level: usize = 0;
    while level < MERKLE_DEPTH
        invariant
            level <= MERKLE_DEPTH,
            hash == fold_path(current, *proof, path_bits, level as nat),
        decreases MERKLE_DEPTH - level,
    {
        let sibling = proof[level];
        let is_right = ((path_bits >> (level as u32)) & 1) == 1;
        let bytes = encode_node(&hash, &sibling, is_right);
        hash = sha256_of(bytes.as_slice());
        level += 1;
    }
    hash
}

/// Says whether a claim opens `commitment`: refuses a path that leaves the
/// tree, then recomputes the root that the claim implies and compares it.
pub fn verify_tile(
    commitment: &[u8; 32],
    tile_index: u8,
    is_mine: u8,
    leaf_nonce: &[u8; 32],
    proof: &[[u8; 32]; 5],
    path_bits: u32,
) -> (matches: bool)
    ensures
        matches == opens(*commitment, tile_index, is_mine, *leaf_nonce, *proof, path_bits),
{
    if path_bits >= LEAF_SLOTS {
        return false;
    }
    let leaf = compute_leaf_hash(tile_index, is_mine, leaf_nonce);
    let root = compute_merkle_root(leaf, proof, path_bits);
    same_bytes(&root, commitment)
}

} // verus!
