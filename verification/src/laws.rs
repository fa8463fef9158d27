//! What holds of every game, whatever is done to it.
//!
//! The theorems here are stated over the spec functions that the contracts of
//! the operations use, so each of them is a statement about what the
//! executable functions return.

use vstd::prelude::*;
use crate::binding::{
    lemma_high_turn_leaves_tree, lemma_opening_is_binding, lemma_path_is_binding, same_path,
};
use crate::digest::sha256_collision;
use crate::error::{CustomError, Rejection};
use crate::game::{
    count_true, Escrow, MinesGame, Settlement, DEFAULT_EXPIRY_SECS, MAX_BOARD_SIZE,
    MAX_MINES, STATE_COMMITTED, STATE_FINISHED,
};
use crate::merkle::{fold_path, leaf_hash, opens, path_bit, MERKLE_DEPTH};
use crate::tree::{board_commitment, board_leaves, is_proof_for, lemma_board_tile_opens};
use crate::operations::{
    abort_refund_outcome, after_reveal_tile, after_settlement, cash_out_outcome,
    collect_house_outcome, opened, reveal_tile_outcome, revealed, start_game_outcome,
};

verus! {

/// One call on a game slot, with its arguments.
pub enum Operation {
    RevealTile {
        caller: [u8; 32],
        tile_index: u8,
        is_mine: u8,
        leaf_nonce: [u8; 32],
        proof: [[u8; 32]; 5],
        path_bits: u32,
    },
    CashOut { caller: [u8; 32] },
    CollectHouse { caller: [u8; 32] },
    AbortRefund { caller: [u8; 32], now: i64 },
}

/// The settlement that `op` brings about, if it does.
pub open spec fn settlement_by(slot: Option<Escrow>, op: Operation) -> Option<Settlement> {
    match op {
        Operation::RevealTile { .. } => None,
        Operation::CashOut { caller } => match cash_out_outcome(slot, caller) {
            Ok(settlement) => Some(settlement),
            Err(_) => None,
        },
        Operation::CollectHouse { caller } => match collect_house_outcome(slot, caller) {
            Ok(settlement) => Some(settlement),
            Err(_) => None,
        },
        Operation::AbortRefund { caller, now } => match abort_refund_outcome(slot, caller, now) {
            Ok(settlement) => Some(settlement),
            Err(_) => None,
        },
    }
}

/// The slot after `op`.
pub open spec fn step(slot: Option<Escrow>, op: Operation) -> Option<Escrow> {
    match op {
        Operation::RevealTile { caller, tile_index, is_mine, leaf_nonce, proof, path_bits } =>
            after_reveal_tile(slot, caller, tile_index, is_mine, leaf_nonce, proof, path_bits),
        Operation::CashOut { caller } => after_settlement(slot, cash_out_outcome(slot, caller)),
        Operation::CollectHouse { caller } => after_settlement(
            slot,
            collect_house_outcome(slot, caller),
        ),
        Operation::AbortRefund { caller, now } => after_settlement(
            slot,
            abort_refund_outcome(slot, caller, now),
        ),
    }
}

/// The funds that leave the vault by `op`.
pub open spec fn paid_by(slot: Option<Escrow>, op: Operation) -> nat {
    match settlement_by(slot, op) {
        Some(settlement) => settlement.amount as nat,
        None => 0,
    }
}

/// The slot after the calls of `ops`, made in order.
pub open spec fn run(slot: Option<Escrow>, ops: Seq<Operation>) -> Option<Escrow>
    decreases ops.len(),
{
    if ops.len() == 0 {
        slot
    } else {
        step(run(slot, ops.drop_last()), ops.last())
    }
}

/// The funds that leave the vault over the calls of `ops`.
pub open spec fn paid_out(slot: Option<Escrow>, ops: Seq<Operation>) -> nat
    decreases ops.len(),
{
    if ops.len() == 0 {
        0
    } else {
        paid_out(slot, ops.drop_last()) + paid_by(run(slot, ops.drop_last()), ops.last())
    }
}

/// The number of settlements that succeed over the calls of `ops`.
pub open spec fn settlements(slot: Option<Escrow>, ops: Seq<Operation>) -> nat
    decreases ops.len(),
{
    if ops.len() == 0 {
        0
    } else {
        settlements(slot, ops.drop_last()) + if settlement_by(
            run(slot, ops.drop_last()),
            ops.last(),
        ) is Some {
            1nat
        } else {
            0nat
        }
    }
}

/// `after` is a later stage of the game `before`: what was fixed at the start
/// is as it was, and nothing that has happened is undone.
pub open spec fn continues(before: MinesGame, after: MinesGame) -> bool {
    &&& after.player == before.player
    &&& after.house == before.house
    &&& after.bet_amount == before.bet_amount
    &&& after.num_mines == before.num_mines
    &&& after.commitment == before.commitment
    &&& after.started_at == before.started_at
    &&& after.expiry_ts == before.expiry_ts
    &&& forall|i: int|
        0 <= i < MAX_BOARD_SIZE && before.revealed_tiles[i] ==> after.revealed_tiles[i]
    &&& after.revealed_count >= before.revealed_count
    &&& (!before.is_active ==> !after.is_active)
    &&& (before.lost ==> after.lost)
    &&& (before.state == STATE_FINISHED ==> after.state == STATE_FINISHED)
}

/// No more entries are true than there are entries.
pub proof fn lemma_count_true_bounded(bits: Seq<bool>)
    ensures
        count_true(bits) <= bits.len(),
    decreases bits.len(),
{
    if bits.len() > 0 {
        lemma_count_true_bounded(bits.drop_last());
    }
}

/// Where no entry is true, the count is zero.
pub proof fn lemma_count_true_none(bits: Seq<bool>)
    requires
        forall|i: int| 0 <= i < bits.len() ==> !bits[i],
    ensures
        count_true(bits) == 0,
    decreases bits.len(),
{
    if bits.len() > 0 {
        lemma_count_true_none(bits.drop_last());
    }
}

/// Marking an entry that was false adds one to the count.
pub proof fn lemma_count_true_marked(bits: Seq<bool>, i: int)
    requires
        0 <= i < bits.len(),
        !bits[i],
    ensures
        count_true(bits.update(i, true)) == count_true(bits) + 1,
    decreases bits.len(),
{
    let marked = bits.update(i, true);
    if i == bits.len() - 1 {
        assert(marked.drop_last() =~= bits.drop_last());
    } else {
        lemma_count_true_marked(bits.drop_last(), i);
        assert(marked.drop_last() =~= bits.drop_last().update(i, true));
    }
}

/// The limit on mines is at least one and leaves a safe tile on the board.
pub proof fn lemma_mine_limit()
    ensures
        1 <= MAX_MINES < MAX_BOARD_SIZE,
{
}

/// A start that succeeds creates a sound escrow: the game is active and in the
/// committed state, nothing is revealed, the deadline is set, and the vault
/// holds exactly the stake.
pub proof fn lemma_start_is_sound(
    player: [u8; 32],
    house: [u8; 32],
    vault_bump: u8,
    now: i64,
    bet_amount: u64,
    num_mines: u8,
    commitment: [u8; 32],
)
    ensures
        match start_game_outcome(
            player,
            house,
            vault_bump,
            now,
            bet_amount,
            num_mines,
            commitment,
        ) {
            Ok(escrow) => {
                &&& bet_amount > 0
                &&& 0 < num_mines <= MAX_MINES
                &&& escrow.wf()
                &&& escrow.vault.balance == bet_amount
                &&& escrow.game.is_active
                &&& !escrow.game.lost
                &&& escrow.game.state == STATE_COMMITTED
                &&& escrow.game.revealed_count == 0
                &&& forall|i: int| 0 <= i < MAX_BOARD_SIZE ==> !escrow.game.revealed_tiles[i]
                &&& now + DEFAULT_EXPIRY_SECS <= i64::MAX ==> escrow.game.expiry_ts == now
                    + DEFAULT_EXPIRY_SECS
            },
            Err(e) => {
                &&& e == CustomError::InvalidBetAmount <==> bet_amount == 0
                &&& e == CustomError::InvalidNumMines <==> bet_amount > 0 && !(0 < num_mines
                    <= MAX_MINES)
            },
        },
{
    let escrow = opened(player, house, vault_bump, now, bet_amount, num_mines, commitment);
    lemma_count_true_none(escrow.game.revealed_tiles@);
}

/// A step takes a sound escrow to a sound escrow, or removes it: the vault
/// holds the stake for as long as the game is there. What was fixed at the
/// start stays fixed, no tile is covered again, and a game that has ended does
/// not come back.
pub proof fn lemma_step_keeps_sound(escrow: Escrow, op: Operation)
    requires
        escrow.wf(),
    ensures
        match step(Some(escrow), op) {
            Some(next) => {
                &&& next.wf()
                &&& next.vault == escrow.vault
                &&& continues(escrow.game, next.game)
            },
            None => settlement_by(Some(escrow), op) is Some,
        },
{
    match op {
        Operation::RevealTile { caller, tile_index, is_mine, leaf_nonce, proof, path_bits } => {
            if reveal_tile_outcome(
                Some(escrow),
                caller,
                tile_index,
                is_mine,
                leaf_nonce,
                proof,
                path_bits,
            ) is Ok {
                let tiles = escrow.game.revealed_tiles@;
                lemma_count_true_marked(tiles, tile_index as int);
                lemma_count_true_bounded(tiles);
                let next = revealed(escrow.game, tile_index, is_mine);
                assert(next.revealed_tiles@ == tiles.update(tile_index as int, true));
            }
        },
        _ => {},
    }
}

/// On an empty slot every operation is refused, and the slot stays empty.
pub proof fn lemma_nothing_without_game(op: Operation)
    ensures
        step(None, op) is None,
        settlement_by(None, op) is None,
        paid_by(None, op) == 0,
        match op {
            Operation::RevealTile { caller, tile_index, is_mine, leaf_nonce, proof, path_bits } =>
                reveal_tile_outcome(
                    None,
                    caller,
                    tile_index,
                    is_mine,
                    leaf_nonce,
                    proof,
                    path_bits,
                ) == Err::<(), Rejection>(Rejection::NoGame),
            Operation::CashOut { caller } => cash_out_outcome(None, caller) == Err::<
                Settlement,
                Rejection,
            >(Rejection::NoGame),
            Operation::CollectHouse { caller } => collect_house_outcome(None, caller) == Err::<
                Settlement,
                Rejection,
            >(Rejection::NoGame),
            Operation::AbortRefund { caller, now } => abort_refund_outcome(None, caller, now)
                == Err::<Settlement, Rejection>(Rejection::NoGame),
        },
{
}

/// A claim that leads to the commitment is accepted: the player's reveal of a
/// tile on the board that is still covered, in a game that is active and
/// committed, succeeds exactly when the claim opens the commitment, and is
/// refused as an invalid commitment when it does not.
pub proof fn lemma_reveal_accepts_valid_claim(
    escrow: Escrow,
    tile_index: u8,
    is_mine: u8,
    leaf_nonce: [u8; 32],
    proof: [[u8; 32]; 5],
    path_bits: u32,
)
    requires
        escrow.game.is_active,
        escrow.game.state == STATE_COMMITTED,
        tile_index < MAX_BOARD_SIZE,
        !escrow.game.revealed_tiles[tile_index as int],
    ensures
        ({
            let outcome = reveal_tile_outcome(
                Some(escrow),
                escrow.game.player,
                tile_index,
                is_mine,
                leaf_nonce,
                proof,
                path_bits,
            );
            let valid = opens(
                escrow.game.commitment,
                tile_index,
                is_mine,
                leaf_nonce,
                proof,
                path_bits,
            );
            &&& valid ==> outcome is Ok
            &&& !valid ==> outcome == Err::<(), Rejection>(
                Rejection::Rule(CustomError::InvalidCommitment),
            )
        }),
{
}

/// The reveal of a committed tile succeeds. Take a game whose commitment is
/// the commitment to a board, and a tile of that board that is still covered,
/// while the game is active and committed. Then the player's reveal of that
/// tile succeeds with the flag and the salt that the board holds for it, the
/// siblings of its slot as the proof, and its index as the path; that tile is
/// marked and no other is, and the vault is as it was.
pub proof fn lemma_committed_tile_reveals(
    escrow: Escrow,
    flags: Seq<u8>,
    nonces: Seq<[u8; 32]>,
    tile_index: u8,
    proof: [[u8; 32]; 5],
)
    requires
        escrow.game.is_active,
        escrow.game.state == STATE_COMMITTED,
        flags.len() == MAX_BOARD_SIZE,
        nonces.len() == MAX_BOARD_SIZE,
        escrow.game.commitment == board_commitment(flags, nonces),
        tile_index < MAX_BOARD_SIZE,
        !escrow.game.revealed_tiles[tile_index as int],
        is_proof_for(board_leaves(flags, nonces), tile_index as nat, proof),
    ensures
        reveal_tile_outcome(
            Some(escrow),
            escrow.game.player,
            tile_index,
            flags[tile_index as int],
            nonces[tile_index as int],
            proof,
            tile_index as u32,
        ) is Ok,
        ({
            let next = after_reveal_tile(
                Some(escrow),
                escrow.game.player,
                tile_index,
                flags[tile_index as int],
                nonces[tile_index as int],
                proof,
                tile_index as u32,
            );
            &&& next is Some
            &&& next->Some_0.vault == escrow.vault
            &&& forall|i: int|
                0 <= i < MAX_BOARD_SIZE ==> next->Some_0.game.revealed_tiles[i] == (i == tile_index
                    || escrow.game.revealed_tiles[i])
        }),
{
    lemma_board_tile_opens(flags, nonces, tile_index, proof);
}

/// A claim that was accepted cannot be changed and accepted again. Take a
/// reveal that succeeds, and a second claim that differs from it in the tile
/// index, the mine flag, the salt or a sibling, but not in the path. Then the
/// second claim is refused on the same game, and refused as an invalid
/// commitment where its tile is on the board and still covered; or SHA-256
/// has a collision.
pub proof fn lemma_changed_claim_is_refused(
    escrow: Escrow,
    tile_index: u8,
    is_mine: u8,
    leaf_nonce: [u8; 32],
    proof: [[u8; 32]; 5],
    path_bits: u32,
    tile_index_2: u8,
    is_mine_2: u8,
    leaf_nonce_2: [u8; 32],
    proof_2: [[u8; 32]; 5],
    path_bits_2: u32,
)
    requires
        reveal_tile_outcome(
            Some(escrow),
            escrow.game.player,
            tile_index,
            is_mine,
            leaf_nonce,
            proof,
            path_bits,
        ) is Ok,
        same_path(path_bits, path_bits_2, MERKLE_DEPTH as nat),
        tile_index_2 != tile_index || is_mine_2 != is_mine || leaf_nonce_2 != leaf_nonce
            || proof_2 != proof,
    ensures
        ({
            let outcome = reveal_tile_outcome(
                Some(escrow),
                escrow.game.player,
                tile_index_2,
                is_mine_2,
                leaf_nonce_2,
                proof_2,
                path_bits_2,
            );
            sha256_collision() || {
                &&& outcome is Err
                &&& tile_index_2 < MAX_BOARD_SIZE && !escrow.game.revealed_tiles[tile_index_2 as int]
                    ==> outcome == Err::<(), Rejection>(
                    Rejection::Rule(CustomError::InvalidCommitment),
                )
            }
        }),
{
    if opens(
        escrow.game.commitment,
        tile_index_2,
        is_mine_2,
        leaf_nonce_2,
        proof_2,
        path_bits_2,
    ) {
        lemma_opening_is_binding(
            escrow.game.commitment,
            tile_index,
            is_mine,
            leaf_nonce,
            proof,
            path_bits,
            tile_index_2,
            is_mine_2,
            leaf_nonce_2,
            proof_2,
            path_bits_2,
        );
    }
}

/// A claim that was accepted cannot be moved to another path and accepted
/// again. Take a reveal that succeeds, and the same claim with a path that
/// differs from the first in some bit, whichever of the 32. Where that bit
/// stands for a level of the tree, let the sibling on that level not be the
/// running hash itself. Then the second claim is refused as an invalid
/// commitment on the same game; or SHA-256 has a collision. Where the bit
/// stands above the tree the claim is refused whatever SHA-256 does.
pub proof fn lemma_changed_path_is_refused(
    escrow: Escrow,
    tile_index: u8,
    is_mine: u8,
    leaf_nonce: [u8; 32],
    proof: [[u8; 32]; 5],
    path_bits: u32,
    path_bits_2: u32,
    level: nat,
)
    requires
        reveal_tile_outcome(
            Some(escrow),
            escrow.game.player,
            tile_index,
            is_mine,
            leaf_nonce,
            proof,
            path_bits,
        ) is Ok,
        level < 32,
        path_bit(path_bits, level) != path_bit(path_bits_2, level),
        level < MERKLE_DEPTH ==> proof[level as int] != fold_path(
            leaf_hash(tile_index, is_mine, leaf_nonce),
            proof,
            path_bits,
            level,
        ),
    ensures
        level < MERKLE_DEPTH ==> sha256_collision() || reveal_tile_outcome(
            Some(escrow),
            escrow.game.player,
            tile_index,
            is_mine,
            leaf_nonce,
            proof,
            path_bits_2,
        ) == Err::<(), Rejection>(Rejection::Rule(CustomError::InvalidCommitment)),
        level >= MERKLE_DEPTH ==> reveal_tile_outcome(
            Some(escrow),
            escrow.game.player,
            tile_index,
            is_mine,
            leaf_nonce,
            proof,
            path_bits_2,
        ) == Err::<(), Rejection>(Rejection::Rule(CustomError::InvalidCommitment)),
{
    if level >= MERKLE_DEPTH {
        if path_bit(path_bits, level) {
            lemma_high_turn_leaves_tree(path_bits, level);
        } else {
            lemma_high_turn_leaves_tree(path_bits_2, level);
        }
    } else if opens(escrow.game.commitment, tile_index, is_mine, leaf_nonce, proof, path_bits_2) {
        lemma_path_is_binding(
            escrow.game.commitment,
            tile_index,
            is_mine,
            leaf_nonce,
            proof,
            path_bits,
            path_bits_2,
        );
    }
}

/// A path above the tree is refused. The player's reveal of a tile on the
/// board that is still covered, in a game that is active and committed, is
/// refused as an invalid commitment where the path has a bit set at or above
/// the depth, whatever the claim and the proof lead to.
pub proof fn lemma_path_above_tree_is_refused(
    escrow: Escrow,
    tile_index: u8,
    is_mine: u8,
    leaf_nonce: [u8; 32],
    proof: [[u8; 32]; 5],
    path_bits: u32,
    level: nat,
)
    requires
        escrow.game.is_active,
        escrow.game.state == STATE_COMMITTED,
        tile_index < MAX_BOARD_SIZE,
        !escrow.game.revealed_tiles[tile_index as int],
        MERKLE_DEPTH <= level < 32,
        path_bit(path_bits, level),
    ensures
        !opens(escrow.game.commitment, tile_index, is_mine, leaf_nonce, proof, path_bits),
        reveal_tile_outcome(
            Some(escrow),
            escrow.game.player,
            tile_index,
            is_mine,
            leaf_nonce,
            proof,
            path_bits,
        ) == Err::<(), Rejection>(Rejection::Rule(CustomError::InvalidCommitment)),
{
    lemma_high_turn_leaves_tree(path_bits, level);
}

/// No tile is revealed twice. After a reveal of a tile has succeeded, every
/// further reveal of that tile by the player, with whatever claim, is refused
/// and leaves the slot as it is, the count of revealed tiles with it: as
/// already revealed where the tile was safe, as a game that is not active
/// where it was a mine.
pub proof fn lemma_no_second_reveal(
    slot: Option<Escrow>,
    caller: [u8; 32],
    tile_index: u8,
    is_mine: u8,
    leaf_nonce: [u8; 32],
    proof: [[u8; 32]; 5],
    path_bits: u32,
    is_mine_2: u8,
    leaf_nonce_2: [u8; 32],
    proof_2: [[u8; 32]; 5],
    path_bits_2: u32,
)
    requires
        reveal_tile_outcome(slot, caller, tile_index, is_mine, leaf_nonce, proof, path_bits) is Ok,
    ensures
        ({
            let next = after_reveal_tile(
                slot,
                caller,
                tile_index,
                is_mine,
                leaf_nonce,
                proof,
                path_bits,
            );
            let second = reveal_tile_outcome(
                next,
                caller,
                tile_index,
                is_mine_2,
                leaf_nonce_2,
                proof_2,
                path_bits_2,
            );
            &&& next is Some
            &&& next->Some_0.game.revealed_tiles[tile_index as int]
            &&& second == Err::<(), Rejection>(
                Rejection::Rule(
                    if is_mine == 0 {
                        CustomError::TileAlreadyRevealed
                    } else {
                        CustomError::GameNotActive
                    },
                ),
            )
            &&& after_reveal_tile(
                next,
                caller,
                tile_index,
                is_mine_2,
                leaf_nonce_2,
                proof_2,
                path_bits_2,
            ) == next
        }),
{
}

/// Hitting a mine ends the game. After a reveal with the mine flag set has
/// succeeded, the game is not active, lost and finished; from then on every
/// reveal, every cash-out and every abort is refused, whoever calls and with
/// whatever arguments: the player's cash-out because the player has lost, the
/// player's abort because the game is not active. The house of record can
/// collect.
pub proof fn lemma_mine_ends_game(
    slot: Option<Escrow>,
    caller: [u8; 32],
    tile_index: u8,
    is_mine: u8,
    leaf_nonce: [u8; 32],
    proof: [[u8; 32]; 5],
    path_bits: u32,
)
    requires
        is_mine != 0,
        reveal_tile_outcome(slot, caller, tile_index, is_mine, leaf_nonce, proof, path_bits) is Ok,
    ensures
        ({
            let next = after_reveal_tile(
                slot,
                caller,
                tile_index,
                is_mine,
                leaf_nonce,
                proof,
                path_bits,
            );
            &&& next is Some
            &&& !next->Some_0.game.is_active
            &&& next->Some_0.game.lost
            &&& next->Some_0.game.state == STATE_FINISHED
            &&& forall|c: [u8; 32], t: u8, m: u8, n: [u8; 32], p: [[u8; 32]; 5], b: u32| #[trigger]
                reveal_tile_outcome(next, c, t, m, n, p, b) is Err
            &&& forall|c: [u8; 32]| #[trigger] cash_out_outcome(next, c) is Err
            &&& forall|c: [u8; 32], now: i64| #[trigger] abort_refund_outcome(next, c, now) is Err
            &&& cash_out_outcome(next, caller) == Err::<Settlement, Rejection>(
                Rejection::Rule(CustomError::PlayerLost),
            )
            &&& forall|now: i64| #[trigger]
                abort_refund_outcome(next, caller, now) == Err::<Settlement, Rejection>(
                    Rejection::Rule(CustomError::GameNotActive),
                )
            &&& collect_house_outcome(next, next->Some_0.game.house) is Ok
        }),
{
}

/// When each settlement succeeds. For a game that is there and the party of
/// record calling: a cash-out succeeds exactly when the game is active, not
/// lost, and a tile has been revealed; collecting for the house exactly when
/// the game is lost; an abort exactly when the game is active, not lost, and
/// the deadline has come. For anyone else none of them succeeds.
pub proof fn lemma_settlement_conditions(escrow: Escrow, caller: [u8; 32], now: i64)
    ensures
        cash_out_outcome(Some(escrow), caller) is Ok <==> caller == escrow.game.player
            && escrow.game.is_active && !escrow.game.lost && escrow.game.revealed_count > 0,
        collect_house_outcome(Some(escrow), caller) is Ok <==> caller == escrow.game.house
            && escrow.game.lost,
        abort_refund_outcome(Some(escrow), caller, now) is Ok <==> caller == escrow.game.player
            && escrow.game.is_active && !escrow.game.lost && now >= escrow.game.expiry_ts,
{
}

/// A settlement is final. Where a cash-out, a collection or an abort
/// succeeds, the slot is empty afterwards, and on it every further cash-out,
/// collection, abort and reveal is refused because no game is there.
pub proof fn lemma_settlement_is_final(slot: Option<Escrow>, op: Operation)
    requires
        settlement_by(slot, op) is Some,
    ensures
        step(slot, op) is None,
        forall|c: [u8; 32]| #[trigger]
            cash_out_outcome(step(slot, op), c) == Err::<Settlement, Rejection>(Rejection::NoGame),
        forall|c: [u8; 32]| #[trigger]
            collect_house_outcome(step(slot, op), c) == Err::<Settlement, Rejection>(
                Rejection::NoGame,
            ),
        forall|c: [u8; 32], now: i64| #[trigger]
            abort_refund_outcome(step(slot, op), c, now) == Err::<Settlement, Rejection>(
                Rejection::NoGame,
            ),
        forall|next: Operation| #[trigger] step(step(slot, op), next) is None,
{
}

/// A settlement pays everything to the right party. Where a settlement of a
/// sound escrow succeeds, the amount is the whole vault, which is the stake;
/// it goes to the player of record for a cash-out or an abort, and to the
/// house of record for a collection, whoever called.
pub proof fn lemma_settlement_pays_stake(escrow: Escrow, op: Operation)
    requires
        escrow.wf(),
        settlement_by(Some(escrow), op) is Some,
    ensures
        ({
            let settlement = settlement_by(Some(escrow), op)->Some_0;
            &&& settlement.amount == escrow.vault.balance
            &&& settlement.amount == escrow.game.bet_amount
            &&& paid_by(Some(escrow), op) == escrow.game.bet_amount
            &&& op is CollectHouse ==> settlement.recipient == escrow.game.house
            &&& !(op is CollectHouse) ==> settlement.recipient == escrow.game.player
            &&& !settlement.game.is_active
            &&& settlement.game.state == STATE_FINISHED
        }),
{
}

/// Each game is settled at most once, and the funds are conserved. Over any
/// calls made on a sound escrow, in any order and by anyone: at most one
/// settlement succeeds; as long as none has, the game is there, sound, a later
/// stage of the game that was started, and its vault holds the stake; once one
/// has, the slot is empty and what has left the vault is exactly the stake.
pub proof fn lemma_settled_once(escrow: Escrow, ops: Seq<Operation>)
    requires
        escrow.wf(),
    ensures
        settlements(Some(escrow), ops) <= 1,
        match run(Some(escrow), ops) {
            Some(now) => {
                &&& settlements(Some(escrow), ops) == 0
                &&& paid_out(Some(escrow), ops) == 0
                &&& now.wf()
                &&& now.vault == escrow.vault
                &&& now.vault.balance == escrow.game.bet_amount
                &&& continues(escrow.game, now.game)
            },
            None => {
                &&& settlements(Some(escrow), ops) == 1
                &&& paid_out(Some(escrow), ops) == escrow.game.bet_amount
            },
        },
    decreases ops.len(),
{
    if ops.len() > 0 {
        let before = ops.drop_last();
        let op = ops.last();
        lemma_settled_once(escrow, before);
        match run(Some(escrow), before) {
            Some(now) => {
                lemma_step_keeps_sound(now, op);
                if settlement_by(Some(now), op) is Some {
                    lemma_settlement_pays_stake(now, op);
                }
            },
            None => {
                lemma_nothing_without_game(op);
            },
        }
    }
}

/// The life of a game, from its start. Over any calls made on a game that a
/// start has created, in any order and by anyone: at most one settlement
/// succeeds; what leaves the vault is nothing until then and exactly the
/// stake from then on; and while the game is there its vault holds the stake.
pub proof fn lemma_game_lifetime(
    player: [u8; 32],
    house: [u8; 32],
    vault_bump: u8,
    now: i64,
    bet_amount: u64,
    num_mines: u8,
    commitment: [u8; 32],
    ops: Seq<Operation>,
)
    requires
        start_game_outcome(player, house, vault_bump, now, bet_amount, num_mines, commitment) is Ok,
    ensures
        ({
            let start = Some(
                start_game_outcome(
                    player,
                    house,
                    vault_bump,
                    now,
                    bet_amount,
                    num_mines,
                    commitment,
                )->Ok_0,
            );
            &&& settlements(start, ops) <= 1
            &&& run(start, ops) is None <==> settlements(start, ops) == 1
            &&& paid_out(start, ops) == if run(start, ops) is None {
                bet_amount as nat
            } else {
                0nat
            }
            &&& run(start, ops) is Some ==> {
                let escrow = run(start, ops)->Some_0;
                &&& escrow.vault.balance == bet_amount
                &&& escrow.game.bet_amount == bet_amount
                &&& escrow.game.player == player
                &&& escrow.game.house == house
                &&& escrow.game.commitment == commitment
            }
        }),
{
    lemma_start_is_sound(player, house, vault_bump, now, bet_amount, num_mines, commitment);
    let escrow = opened(player, house, vault_bump, now, bet_amount, num_mines, commitment);
    lemma_settled_once(escrow, ops);
}

} // verus!
