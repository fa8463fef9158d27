//! Why a commitment binds the house: whoever opens one position of a
//! commitment in two different ways has found a SHA-256 collision.
//!
//! The theorems speak of one position, that is of one path. Nothing ties a
//! path to a tile index, so they do not say that a tile index is opened in
//! one way only: a board that holds two leaves for one index, at two
//! positions, is opened at either.

use vstd::prelude::*;
use crate::digest::{sha256, sha256_collision};
use crate::merkle::{
    fold_path, leaf_hash, leaf_preimage, level_preimage, node_preimage, opens, path_bit,
    path_in_tree, MERKLE_DEPTH,
};

verus! {

/// Two paths that turn the same way on each of the lowest `levels` levels.
pub open spec fn same_path(bits_a: u32, bits_b: u32, levels: nat) -> bool {
    forall|l: nat| l < levels ==> path_bit(bits_a, l) == path_bit(bits_b, l)
}

/// Two proofs with the same siblings on each of the lowest `levels` levels.
pub open spec fn same_siblings(proof_a: [[u8; 32]; 5], proof_b: [[u8; 32]; 5], levels: nat) -> bool {
    forall|l: int| 0 <= l < levels ==> proof_a[l] == proof_b[l]
}

/// Two byte strings with one digest are the same string, or a collision.
pub proof fn lemma_digest_binding(a: Seq<u8>, b: Seq<u8>)
    requires
        sha256(a) == sha256(b),
    ensures
        a == b || sha256_collision(),
{
}

/// A node's preimage, read in the same order, gives back both children.
pub proof fn lemma_node_preimage_injective(
    current_a: [u8; 32],
    sibling_a: [u8; 32],
    current_b: [u8; 32],
    sibling_b: [u8; 32],
    is_right: bool,
)
    requires
        node_preimage(current_a, sibling_a, is_right) == node_preimage(
            current_b,
            sibling_b,
            is_right,
        ),
    ensures
        current_a == current_b,
        sibling_a == sibling_b,
{
    let pa = node_preimage(current_a, sibling_a, is_right);
    let pb = node_preimage(current_b, sibling_b, is_right);
    assert forall|i: int| 0 <= i < 32 implies current_a[i] == current_b[i] && sibling_a[i]
        == sibling_b[i] by {
        if is_right {
            assert(pa[i] == sibling_a[i] && pb[i] == sibling_b[i]);
            assert(pa[32 + i] == current_a[i] && pb[32 + i] == current_b[i]);
        } else {
            assert(pa[i] == current_a[i] && pb[i] == current_b[i]);
            assert(pa[32 + i] == sibling_a[i] && pb[32 + i] == sibling_b[i]);
        }
    }
    assert(current_a =~= current_b);
    assert(sibling_a =~= sibling_b);
}

/// A node's preimage read in both orders: the two children are one value.
pub proof fn lemma_node_preimage_swapped(current_a: [u8; 32], current_b: [u8; 32], sibling: [u8; 32])
    requires
        node_preimage(current_a, sibling, true) == node_preimage(current_b, sibling, false),
    ensures
        current_a == sibling,
        current_b == sibling,
{
    let pa = node_preimage(current_a, sibling, true);
    let pb = node_preimage(current_b, sibling, false);
    assert forall|i: int| 0 <= i < 32 implies current_a[i] == sibling[i] && current_b[i]
        == sibling[i] by {
        assert(pa[i] == sibling[i] && pb[i] == current_b[i]);
        assert(pa[32 + i] == current_a[i] && pb[32 + i] == sibling[i]);
    }
    assert(current_a =~= sibling);
    assert(current_b =~= sibling);
}

/// The encoding of a leaf gives back the index, the flag and the salt.
pub proof fn lemma_leaf_preimage_injective(
    tile_index_a: u8,
    is_mine_a: u8,
    nonce_a: [u8; 32],
    tile_index_b: u8,
    is_mine_b: u8,
    nonce_b: [u8; 32],
)
    requires
        leaf_preimage(tile_index_a, is_mine_a, nonce_a) == leaf_preimage(
            tile_index_b,
            is_mine_b,
            nonce_b,
        ),
    ensures
        tile_index_a == tile_index_b,
        is_mine_a == is_mine_b,
        nonce_a == nonce_b,
{
    let pa = leaf_preimage(tile_index_a, is_mine_a, nonce_a);
    let pb = leaf_preimage(tile_index_b, is_mine_b, nonce_b);
    assert(pa[4] == tile_index_a && pb[4] == tile_index_b);
    assert(pa[8] == is_mine_a && pb[8] == is_mine_b);
    assert forall|i: int| 0 <= i < 32 implies nonce_a[i] == nonce_b[i] by {
        assert(pa[9 + i] == nonce_a[i] && pb[9 + i] == nonce_b[i]);
    }
    assert(nonce_a =~= nonce_b);
}

/// Along one path, a running hash is reached from one leaf hash and one list
/// of siblings only, or SHA-256 has a collision.
pub proof fn lemma_fold_binding(
    current_a: [u8; 32],
    proof_a: [[u8; 32]; 5],
    bits_a: u32,
    current_b: [u8; 32],
    proof_b: [[u8; 32]; 5],
    bits_b: u32,
    levels: nat,
)
    requires
        levels <= MERKLE_DEPTH,
        same_path(bits_a, bits_b, levels),
        fold_path(current_a, proof_a, bits_a, levels) == fold_path(
            current_b,
            proof_b,
            bits_b,
            levels,
        ),
    ensures
        sha256_collision() || (current_a == current_b && same_siblings(proof_a, proof_b, levels)),
    decreases levels,
{
    if levels > 0 {
        let level = (levels - 1) as nat;
        let pa = level_preimage(current_a, proof_a, bits_a, level);
        let pb = level_preimage(current_b, proof_b, bits_b, level);
        lemma_digest_binding(pa, pb);
        if pa == pb {
            assert(path_bit(bits_a, level) == path_bit(bits_b, level));
            lemma_node_preimage_injective(
                fold_path(current_a, proof_a, bits_a, level),
                proof_a[level as int],
                fold_path(current_b, proof_b, bits_b, level),
                proof_b[level as int],
                path_bit(bits_a, level),
            );
            lemma_fold_binding(current_a, proof_a, bits_a, current_b, proof_b, bits_b, level);
        }
    }
}

/// One position of a commitment is opened in one way only: two claims that
/// both open `commitment` and turn the same way on every level are one
/// claim, with the same tile index, mine flag, salt, siblings and path, or
/// SHA-256 has a collision.
pub proof fn lemma_opening_is_binding(
    commitment: [u8; 32],
    tile_index_a: u8,
    is_mine_a: u8,
    nonce_a: [u8; 32],
    proof_a: [[u8; 32]; 5],
    bits_a: u32,
    tile_index_b: u8,
    is_mine_b: u8,
    nonce_b: [u8; 32],
    proof_b: [[u8; 32]; 5],
    bits_b: u32,
)
    requires
        opens(commitment, tile_index_a, is_mine_a, nonce_a, proof_a, bits_a),
        opens(commitment, tile_index_b, is_mine_b, nonce_b, proof_b, bits_b),
        same_path(bits_a, bits_b, MERKLE_DEPTH as nat),
    ensures
        sha256_collision() || (tile_index_a == tile_index_b && is_mine_a == is_mine_b && nonce_a
            == nonce_b && proof_a == proof_b),
        bits_a == bits_b,
{
    lemma_path_is_its_turns(bits_a, bits_b);
    let leaf_a = leaf_hash(tile_index_a, is_mine_a, nonce_a);
    let leaf_b = leaf_hash(tile_index_b, is_mine_b, nonce_b);
    lemma_fold_binding(leaf_a, proof_a, bits_a, leaf_b, proof_b, bits_b, MERKLE_DEPTH as nat);
    if leaf_a == leaf_b && same_siblings(proof_a, proof_b, MERKLE_DEPTH as nat) {
        let pa = leaf_preimage(tile_index_a, is_mine_a, nonce_a);
        let pb = leaf_preimage(tile_index_b, is_mine_b, nonce_b);
        lemma_digest_binding(pa, pb);
        if pa == pb {
            lemma_leaf_preimage_injective(
                tile_index_a,
                is_mine_a,
                nonce_a,
                tile_index_b,
                is_mine_b,
                nonce_b,
            );
        }
        assert(proof_a =~= proof_b);
    }
}

/// With the leaf hash and the siblings fixed, a running hash is reached along
/// two paths only where, on every level on which the paths part, the sibling
/// is the running hash itself; or SHA-256 has a collision.
pub proof fn lemma_fold_path_binding(
    current: [u8; 32],
    proof: [[u8; 32]; 5],
    bits_a: u32,
    bits_b: u32,
    levels: nat,
)
    requires
        levels <= MERKLE_DEPTH,
        fold_path(current, proof, bits_a, levels) == fold_path(current, proof, bits_b, levels),
    ensures
        sha256_collision() || forall|l: nat|
            l < levels && path_bit(bits_a, l) != path_bit(bits_b, l) ==> proof[l as int]
                == #[trigger] fold_path(current, proof, bits_a, l),
    decreases levels,
{
    if levels > 0 {
        let level = (levels - 1) as nat;
        let below_a = fold_path(current, proof, bits_a, level);
        let below_b = fold_path(current, proof, bits_b, level);
        let sibling = proof[level as int];
        let pa = level_preimage(current, proof, bits_a, level);
        let pb = level_preimage(current, proof, bits_b, level);
        lemma_digest_binding(pa, pb);
        if pa == pb {
            if path_bit(bits_a, level) == path_bit(bits_b, level) {
                lemma_node_preimage_injective(
                    below_a,
                    sibling,
                    below_b,
                    sibling,
                    path_bit(bits_a, level),
                );
            } else if path_bit(bits_a, level) {
                lemma_node_preimage_swapped(below_a, below_b, sibling);
            } else {
                lemma_node_preimage_swapped(below_b, below_a, sibling);
            }
            lemma_fold_path_binding(current, proof, bits_a, bits_b, level);
        }
    }
}

/// A claim cannot be moved to another path: where one leaf and one proof lead
/// to `commitment` along two paths, then on every level on which the paths
/// part the sibling is the running hash itself, or SHA-256 has a collision.
pub proof fn lemma_path_is_binding(
    commitment: [u8; 32],
    tile_index: u8,
    is_mine: u8,
    nonce: [u8; 32],
    proof: [[u8; 32]; 5],
    bits_a: u32,
    bits_b: u32,
)
    requires
        opens(commitment, tile_index, is_mine, nonce, proof, bits_a),
        opens(commitment, tile_index, is_mine, nonce, proof, bits_b),
    ensures
        sha256_collision() || forall|l: nat|
            l < MERKLE_DEPTH && path_bit(bits_a, l) != path_bit(bits_b, l) ==> proof[l as int]
                == #[trigger] fold_path(leaf_hash(tile_index, is_mine, nonce), proof, bits_a, l),
{
    lemma_fold_path_binding(
        leaf_hash(tile_index, is_mine, nonce),
        proof,
        bits_a,
        bits_b,
        MERKLE_DEPTH as nat,
    );
}

/// A path within the tree is told by its turns: two such paths that turn the
/// same way on every level are one path.
pub proof fn lemma_path_is_its_turns(bits_a: u32, bits_b: u32)
    requires
        path_in_tree(bits_a),
        path_in_tree(bits_b),
        same_path(bits_a, bits_b, MERKLE_DEPTH as nat),
    ensures
        bits_a == bits_b,
{
    assert(path_bit(bits_a, 0) == path_bit(bits_b, 0));
    assert(path_bit(bits_a, 1) == path_bit(bits_b, 1));
    assert(path_bit(bits_a, 2) == path_bit(bits_b, 2));
    assert(path_bit(bits_a, 3) == path_bit(bits_b, 3));
    assert(path_bit(bits_a, 4) == path_bit(bits_b, 4));
    assert(bits_a < 32 && bits_b < 32 && (((bits_a >> 0u32) & 1 == 1) == ((bits_b >> 0u32) & 1
        == 1)) && (((bits_a >> 1u32) & 1 == 1) == ((bits_b >> 1u32) & 1 == 1)) && (((bits_a
        >> 2u32) & 1 == 1) == ((bits_b >> 2u32) & 1 == 1)) && (((bits_a >> 3u32) & 1 == 1) == ((
    bits_b >> 3u32) & 1 == 1)) && (((bits_a >> 4u32) & 1 == 1) == ((bits_b >> 4u32) & 1 == 1))
        ==> bits_a == bits_b) by (bit_vector);
}

/// A path that turns on a level at or above the depth leaves the tree.
pub proof fn lemma_high_turn_leaves_tree(path_bits: u32, level: nat)
    requires
        MERKLE_DEPTH <= level < 32,
        path_bit(path_bits, level),
    ensures
        !path_in_tree(path_bits),
{
    let l = level as u32;
    assert(5 <= l < 32 && (path_bits >> l) & 1 == 1 ==> path_bits >= 32) by (bit_vector);
}

/// A path stays within the tree exactly when it turns on no level at or above
/// the depth.
pub proof fn lemma_path_in_tree_has_no_high_turn(path_bits: u32)
    ensures
        path_in_tree(path_bits) <==> forall|level: nat|
            MERKLE_DEPTH <= level < 32 ==> !#[trigger] path_bit(path_bits, level),
{
    if path_in_tree(path_bits) {
        assert forall|level: nat| MERKLE_DEPTH <= level < 32 implies !#[trigger] path_bit(
            path_bits,
            level,
        ) by {
            if path_bit(path_bits, level) {
                lemma_high_turn_leaves_tree(path_bits, level);
            }
        }
    }
    if forall|level: nat| MERKLE_DEPTH <= level < 32 ==> !#[trigger] path_bit(path_bits, level) {
        assert(!path_bit(path_bits, 5));
        assert(!path_bit(path_bits, 6));
        assert(!path_bit(path_bits, 7));
        assert(!path_bit(path_bits, 8));
        assert(!path_bit(path_bits, 9));
        assert(!path_bit(path_bits, 10));
        assert(!path_bit(path_bits, 11));
        assert(!path_bit(path_bits, 12));
        assert(!path_bit(path_bits, 13));
        assert(!path_bit(path_bits, 14));
        assert(!path_bit(path_bits, 15));
        assert(!path_bit(path_bits, 16));
        assert(!path_bit(path_bits, 17));
        assert(!path_bit(path_bits, 18));
        assert(!path_bit(path_bits, 19));
        assert(!path_bit(path_bits, 20));
        assert(!path_bit(path_bits, 21));
        assert(!path_bit(path_bits, 22));
        assert(!path_bit(path_bits, 23));
        assert(!path_bit(path_bits, 24));
        assert(!path_bit(path_bits, 25));
        assert(!path_bit(path_bits, 26));
        assert(!path_bit(path_bits, 27));
        assert(!path_bit(path_bits, 28));
        assert(!path_bit(path_bits, 29));
        assert(!path_bit(path_bits, 30));
        assert(!path_bit(path_bits, 31));
        assert(
            (path_bits >> 5u32) & 1 != 1 && (path_bits >> 6u32) & 1 != 1
            && (path_bits >> 7u32) & 1 != 1 && (path_bits >> 8u32) & 1 != 1
            && (path_bits >> 9u32) & 1 != 1 && (path_bits >> 10u32) & 1 != 1
            && (path_bits >> 11u32) & 1 != 1 && (path_bits >> 12u32) & 1 != 1
            && (path_bits >> 13u32) & 1 != 1 && (path_bits >> 14u32) & 1 != 1
            && (path_bits >> 15u32) & 1 != 1 && (path_bits >> 16u32) & 1 != 1
            && (path_bits >> 17u32) & 1 != 1 && (path_bits >> 18u32) & 1 != 1
            && (path_bits >> 19u32) & 1 != 1 && (path_bits >> 20u32) & 1 != 1
            && (path_bits >> 21u32) & 1 != 1 && (path_bits >> 22u32) & 1 != 1
            && (path_bits >> 23u32) & 1 != 1 && (path_bits >> 24u32) & 1 != 1
            && (path_bits >> 25u32) & 1 != 1 && (path_bits >> 26u32) & 1 != 1
            && (path_bits >> 27u32) & 1 != 1 && (path_bits >> 28u32) & 1 != 1
            && (path_bits >> 29u32) & 1 != 1 && (path_bits >> 30u32) & 1 != 1
            && (path_bits >> 31u32) & 1 != 1
            ==> path_bits < 32) by (bit_vector);
    }
}

} // verus!
