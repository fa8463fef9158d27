//! The operations on a game slot: start, reveal, and the three settlements.
//!
//! A slot is an `Option<Escrow>`: `None` where no game is recorded. Every
//! operation either applies as a whole or leaves the slot as it was. What each
//! one returns and leaves behind is given by a pair of spec functions, and the
//! executable functions are proved to compute exactly those.

use vstd::prelude::*;
use vstd::array::{spec_array_fill_for_copy_type, spec_array_update};
use crate::digest::same_bytes;
use crate::error::{CustomError, Rejection};
use crate::game::{
    expiry_of, valid_num_mines, Escrow, MinesGame, Settlement, Vault, DEFAULT_EXPIRY_SECS,
    MAX_BOARD_SIZE, MAX_MINES, STATE_COMMITTED, STATE_FINISHED,
};
use crate::merkle::{
    compute_leaf_hash, compute_merkle_root, leaf_hash, merkle_root, path_in_tree, LEAF_SLOTS,
};

verus! {

/// A board on which no tile is marked.
pub open spec fn no_tiles() -> [bool; 25] {
    spec_array_fill_for_copy_type::<bool, 25>(false)
}

/// The escrow that a start with valid parameters creates: a fresh record with
/// nothing revealed, and a vault that holds exactly the stake.
pub open spec fn opened(
    player: [u8; 32],
    house: [u8; 32],
    vault_bump: u8,
    now: i64,
    bet_amount: u64,
    num_mines: u8,
    commitment: [u8; 32],
) -> Escrow {
    Escrow {
        game: MinesGame {
            player,
            house,
            bet_amount,
            num_mines,
            mine_positions: no_tiles(),
            revealed_tiles: no_tiles(),
            is_active: true,
            lost: false,
            revealed_count: 0,
            commitment,
            state: STATE_COMMITTED,
            started_at: now,
            expiry_ts: expiry_of(now),
        },
        vault: Vault { bump: vault_bump, balance: bet_amount },
    }
}

/// What the validation of a start's parameters returns.
pub open spec fn check_start_outcome(bet_amount: u64, num_mines: u8) -> Result<(), CustomError> {
    if bet_amount == 0 {
        Err(CustomError::InvalidBetAmount)
    } else if !valid_num_mines(num_mines) {
        Err(CustomError::InvalidNumMines)
    } else {
        Ok(())
    }
}

/// What a start returns.
pub open spec fn start_game_outcome(
    player: [u8; 32],
    house: [u8; 32],
    vault_bump: u8,
    now: i64,
    bet_amount: u64,
    num_mines: u8,
    commitment: [u8; 32],
) -> Result<Escrow, CustomError> {
    match check_start_outcome(bet_amount, num_mines) {
        Err(error) => Err(error),
        Ok(_) => Ok(opened(player, house, vault_bump, now, bet_amount, num_mines, commitment)),
    }
}

/// Validates the parameters of a start: the stake must be positive, and the
/// mine count must leave both a mine and a safe tile. This is all that can
/// refuse a start, so a caller can ask before it reads the time.
pub fn check_start(bet_amount: u64, num_mines: u8) -> (result: Result<(), CustomError>)
    ensures
        result == check_start_outcome(bet_amount, num_mines),
{
    if bet_amount == 0 {
        return Err(CustomError::InvalidBetAmount);
    }
    if !(num_mines > 0 && (num_mines as usize) <= MAX_MINES && (num_mines as usize)
        < MAX_BOARD_SIZE) {
        return Err(CustomError::InvalidNumMines);
    }
    Ok(())
}

/// Opens a game for `player` against `house` at time `now`.
///
/// The stake must be positive and the mine count must leave both a mine and a
/// safe tile. The vault of the new escrow holds `bet_amount`: that amount is
/// what the caller has to move from the player into the vault.
pub fn start_game(
    player: [u8; 32],
    house: [u8; 32],
    vault_bump: u8,
    now: i64,
    bet_amount: u64,
    num_mines: u8,
    commitment: [u8; 32],
) -> (result: Result<Escrow, CustomError>)
    ensures
        result == start_game_outcome(
            player,
            house,
            vault_bump,
            now,
            bet_amount,
            num_mines,
            commitment,
        ),
{
    match check_start(bet_amount, num_mines) {
        Err(error) => {
            return Err(error);
        },
        Ok(_) => {},
    }
    let expiry_ts = match now.checked_add(DEFAULT_EXPIRY_SECS) {
        Some(t) => t,
        None => i64::MAX,
    };
    let game = MinesGame {
        player,
        house,
        bet_amount,
        num_mines,
        mine_positions: [false;25],
        revealed_tiles: [false;25],
        is_active: true,
        lost: false,
        revealed_count: 0,
        commitment,
        state: STATE_COMMITTED,
        started_at: now,
        expiry_ts,
    };
    Ok(Escrow { game, vault: Vault { bump: vault_bump, balance: bet_amount } })
}

/// The board disclosure of an older design. It is kept so that old callers
/// get an answer, and refuses whatever it is given.
pub fn set_mine_positions(_slot: &Option<Escrow>, _nonce: [u8; 32], _bytes: [u8; 25]) -> (result:
    Result<(), CustomError>)
    ensures
        result == Err::<(), CustomError>(CustomError::DeprecatedInstruction),
{
    Err(CustomError::DeprecatedInstruction)
}

/// The record after `tile_index` has been revealed with flag `is_mine`.
pub open spec fn revealed(game: MinesGame, tile_index: u8, is_mine: u8) -> MinesGame {
    MinesGame {
        revealed_tiles: spec_array_update(game.revealed_tiles, tile_index as int, true),
        revealed_count: if game.revealed_count < u8::MAX {
            (game.revealed_count + 1) as u8
        } else {
            u8::MAX
        },
        is_active: game.is_active && is_mine == 0,
        lost: game.lost || is_mine != 0,
        state: if is_mine != 0 {
            STATE_FINISHED
        } else {
            game.state
        },
        ..game
    }
}

/// What a reveal returns, given its path and the root that its claim leads
/// to along that path. The claim is refused as an invalid commitment where the
/// path leaves the tree or the root is not the commitment.
pub open spec fn reveal_outcome(
    slot: Option<Escrow>,
    caller: [u8; 32],
    tile_index: u8,
    path_bits: u32,
    root: [u8; 32],
) -> Result<(), Rejection> {
    match slot {
        None => Err(Rejection::NoGame),
        Some(escrow) => {
            let game = escrow.game;
            if caller != game.player {
                Err(Rejection::Unauthorized)
            } else if !game.is_active {
                Err(Rejection::Rule(CustomError::GameNotActive))
            } else if game.state != STATE_COMMITTED {
                Err(Rejection::Rule(CustomError::GameNotRevealed))
            } else if tile_index >= MAX_BOARD_SIZE {
                Err(Rejection::Rule(CustomError::InvalidTileIndex))
            } else if game.revealed_tiles[tile_index as int] {
                Err(Rejection::Rule(CustomError::TileAlreadyRevealed))
            } else if !path_in_tree(path_bits) || root != game.commitment {
                Err(Rejection::Rule(CustomError::InvalidCommitment))
            } else {
                Ok(())
            }
        },
    }
}

/// The slot after a reveal, given its path and the root that its claim leads
/// to.
pub open spec fn after_reveal(
    slot: Option<Escrow>,
    caller: [u8; 32],
    tile_index: u8,
    is_mine: u8,
    path_bits: u32,
    root: [u8; 32],
) -> Option<Escrow> {
    if reveal_outcome(slot, caller, tile_index, path_bits, root) is Ok {
        Some(
            Escrow {
                game: revealed(slot->Some_0.game, tile_index, is_mine),
                vault: slot->Some_0.vault,
            },
        )
    } else {
        slot
    }
}

/// What a reveal returns.
pub open spec fn reveal_tile_outcome(
    slot: Option<Escrow>,
    caller: [u8; 32],
    tile_index: u8,
    is_mine: u8,
    leaf_nonce: [u8; 32],
    proof: [[u8; 32]; 5],
    path_bits: u32,
) -> Result<(), Rejection> {
    reveal_outcome(
        slot,
        caller,
        tile_index,
        path_bits,
        merkle_root(leaf_hash(tile_index, is_mine, leaf_nonce), proof, path_bits),
    )
}

/// The slot after a reveal.
pub open spec fn after_reveal_tile(
    slot: Option<Escrow>,
    caller: [u8; 32],
    tile_index: u8,
    is_mine: u8,
    leaf_nonce: [u8; 32],
    proof: [[u8; 32]; 5],
    path_bits: u32,
) -> Option<Escrow> {
    after_reveal(
        slot,
        caller,
        tile_index,
        is_mine,
        path_bits,
        merkle_root(leaf_hash(tile_index, is_mine, leaf_nonce), proof, path_bits),
    )
}

/// Applies a reveal whose claim has been folded into `root` already.
///
/// This is the part of a reveal that follows the hashing. It looks at the
/// path itself, and trusts the caller that `root` is the root that the claim
/// and its proof lead to along `path_bits`: call `reveal_tile` unless that
/// root has been computed by `compute_merkle_root`.
pub fn reveal_tile_with_root(
    slot: &mut Option<Escrow>,
    caller: &[u8; 32],
    tile_index: u8,
    is_mine: u8,
    path_bits: u32,
    root: &[u8; 32],
) -> (result: Result<(), Rejection>)
    ensures
        result == reveal_outcome(*old(slot), *caller, tile_index, path_bits, *root),
        *final(slot) == after_reveal(*old(slot), *caller, tile_index, is_mine, path_bits, *root),
{
    let escrow = match *slot {
        Some(escrow) => escrow,
        None => {
            return Err(Rejection::NoGame);
        },
    };
    let mut game = escrow.game;
    if !same_bytes(caller, &game.player) {
        return Err(Rejection::Unauthorized);
    }
    if !game.is_active {
        return Err(Rejection::Rule(CustomError::GameNotActive));
    }
    if game.state != STATE_COMMITTED {
        return Err(Rejection::Rule(CustomError::GameNotRevealed));
    }
    if (tile_index as usize) >= MAX_BOARD_SIZE {
        return Err(Rejection::Rule(CustomError::InvalidTileIndex));
    }
    if game.revealed_tiles[tile_index as usize] {
        return Err(Rejection::Rule(CustomError::TileAlreadyRevealed));
    }
    if path_bits >= LEAF_SLOTS || !same_bytes(root, &game.commitment) {
        return Err(Rejection::Rule(CustomError::InvalidCommitment));
    }
    game.revealed_tiles[tile_index as usize] = true;
    game.revealed_count = game.revealed_count.saturating_add(1);
    if is_mine != 0 {
        game.is_active = false;
        game.lost = true;
        game.state = STATE_FINISHED;
    }
    assert(game.revealed_tiles =~= revealed(escrow.game, tile_index, is_mine).revealed_tiles);
    *slot = Some(Escrow { game, vault: escrow.vault });
    Ok(())
}

/// Reveals one tile of the game in `slot` on behalf of `caller`.
///
/// The claim `(tile_index, is_mine, leaf_nonce)` is accepted only with a proof
/// that leads to the game's commitment along a path within the tree. A safe
/// tile is marked and counted; a mine also ends the game as lost, in the same
/// step. The vault is not touched.
pub fn reveal_tile(
    slot: &mut Option<Escrow>,
    caller: &[u8; 32],
    tile_index: u8,
    is_mine: u8,
    leaf_nonce: &[u8; 32],
    proof: &[[u8; 32]; 5],
    path_bits: u32,
) -> (result: Result<(), Rejection>)
    ensures
        result == reveal_tile_outcome(
            *old(slot),
            *caller,
            tile_index,
            is_mine,
            *leaf_nonce,
            *proof,
            path_bits,
        ),
        *final(slot) == after_reveal_tile(
            *old(slot),
            *caller,
            tile_index,
            is_mine,
            *leaf_nonce,
            *proof,
            path_bits,
        ),
{
    let leaf = compute_leaf_hash(tile_index, is_mine, leaf_nonce);
    let root = compute_merkle_root(leaf, proof, path_bits);
    reveal_tile_with_root(slot, caller, tile_index, is_mine, path_bits, &root)
}

/// The record as a settlement in the player's favour closes it.
pub open spec fn finished(game: MinesGame) -> MinesGame {
    MinesGame { is_active: false, state: STATE_FINISHED, ..game }
}

/// What a cash-out returns.
pub open spec fn cash_out_outcome(slot: Option<Escrow>, caller: [u8; 32]) -> Result<
    Settlement,
    Rejection,
> {
    match slot {
        None => Err(Rejection::NoGame),
        Some(escrow) => {
            let game = escrow.game;
            if caller != game.player {
                Err(Rejection::Unauthorized)
            } else if game.lost {
                Err(Rejection::Rule(CustomError::PlayerLost))
            } else if !game.is_active {
                Err(Rejection::Rule(CustomError::GameNotActive))
            } else if game.revealed_count == 0 {
                Err(Rejection::Rule(CustomError::NothingToCashOut))
            } else {
                Ok(
                    Settlement {
                        recipient: game.player,
                        amount: escrow.vault.balance,
                        game: finished(game),
                    },
                )
            }
        },
    }
}

/// What collecting for the house returns.
pub open spec fn collect_house_outcome(slot: Option<Escrow>, caller: [u8; 32]) -> Result<
    Settlement,
    Rejection,
> {
    match slot {
        None => Err(Rejection::NoGame),
        Some(escrow) => {
            let game = escrow.game;
            if caller != game.house {
                Err(Rejection::Unauthorized)
            } else if !game.lost {
                Err(Rejection::Rule(CustomError::GameNotLost))
            } else {
                Ok(Settlement { recipient: game.house, amount: escrow.vault.balance, game })
            }
        },
    }
}

/// What is asked of an abort before the time is looked at.
pub open spec fn check_abort_outcome(slot: Option<Escrow>, caller: [u8; 32]) -> Result<
    (),
    Rejection,
> {
    match slot {
        None => Err(Rejection::NoGame),
        Some(escrow) => {
            let game = escrow.game;
            if caller != game.player {
                Err(Rejection::Unauthorized)
            } else if !game.is_active {
                Err(Rejection::Rule(CustomError::GameNotActive))
            } else if game.lost {
                Err(Rejection::Rule(CustomError::PlayerLost))
            } else {
                Ok(())
            }
        },
    }
}

/// What an abort with refund returns at time `now`.
pub open spec fn abort_refund_outcome(slot: Option<Escrow>, caller: [u8; 32], now: i64) -> Result<
    Settlement,
    Rejection,
> {
    match check_abort_outcome(slot, caller) {
        Err(rejection) => Err(rejection),
        Ok(_) => {
            let escrow = slot->Some_0;
            if now < escrow.game.expiry_ts {
                Err(Rejection::Rule(CustomError::NotExpired))
            } else {
                Ok(
                    Settlement {
                        recipient: escrow.game.player,
                        amount: escrow.vault.balance,
                        game: finished(escrow.game),
                    },
                )
            }
        },
    }
}

/// The slot after a settlement was tried: empty where it succeeded, as it was
/// where it was refused.
pub open spec fn after_settlement(slot: Option<Escrow>, outcome: Result<Settlement, Rejection>)
    -> Option<Escrow> {
    if outcome is Ok {
        None
    } else {
        slot
    }
}

/// Pays the whole vault to the player of a game that is still open and in
/// which at least one tile has been revealed, and removes game and vault.
pub fn cash_out(slot: &mut Option<Escrow>, caller: &[u8; 32]) -> (result: Result<
    Settlement,
    Rejection,
>)
    ensures
        result == cash_out_outcome(*old(slot), *caller),
        *final(slot) == after_settlement(*old(slot), result),
{
    let escrow = match *slot {
        Some(escrow) => escrow,
        None => {
            return Err(Rejection::NoGame);
        },
    };
    let mut game = escrow.game;
    if !same_bytes(caller, &game.player) {
        return Err(Rejection::Unauthorized);
    }
    if game.lost {
        return Err(Rejection::Rule(CustomError::PlayerLost));
    }
    if !game.is_active {
        return Err(Rejection::Rule(CustomError::GameNotActive));
    }
    if game.revealed_count == 0 {
        return Err(Rejection::Rule(CustomError::NothingToCashOut));
    }
    game.is_active = false;
    game.state = STATE_FINISHED;
    *slot = None;
    Ok(Settlement { recipient: game.player, amount: escrow.vault.balance, game })
}

/// Pays the whole vault of a lost game to the house that the record names,
/// and removes game and vault.
pub fn collect_house(slot: &mut Option<Escrow>, caller: &[u8; 32]) -> (result: Result<
    Settlement,
    Rejection,
>)
    ensures
        result == collect_house_outcome(*old(slot), *caller),
        *final(slot) == after_settlement(*old(slot), result),
{
    let escrow = match *slot {
        Some(escrow) => escrow,
        None => {
            return Err(Rejection::NoGame);
        },
    };
    let game = escrow.game;
    if !same_bytes(caller, &game.house) {
        return Err(Rejection::Unauthorized);
    }
    if !game.lost {
        return Err(Rejection::Rule(CustomError::GameNotLost));
    }
    *slot = None;
    Ok(Settlement { recipient: game.house, amount: escrow.vault.balance, game })
}

/// Says whether an abort may go ahead as far as the game and the caller go:
/// the game is there, the caller is its player, and it is active and not
/// lost. The deadline is not looked at, so a caller can ask before it reads
/// the time.
pub fn check_abort(slot: &Option<Escrow>, caller: &[u8; 32]) -> (result: Result<(), Rejection>)
    ensures
        result == check_abort_outcome(*slot, *caller),
{
    let escrow = match *slot {
        Some(escrow) => escrow,
        None => {
            return Err(Rejection::NoGame);
        },
    };
    if !same_bytes(caller, &escrow.game.player) {
        return Err(Rejection::Unauthorized);
    }
    if !escrow.game.is_active {
        return Err(Rejection::Rule(CustomError::GameNotActive));
    }
    if escrow.game.lost {
        return Err(Rejection::Rule(CustomError::PlayerLost));
    }
    Ok(())
}

/// Refunds the whole vault to the player of a game that is still open once
/// its deadline has come, and removes game and vault.
pub fn abort_refund(slot: &mut Option<Escrow>, caller: &[u8; 32], now: i64) -> (result: Result<
    Settlement,
    Rejection,
>)
    ensures
        result == abort_refund_outcome(*old(slot), *caller, now),
        *final(slot) == after_settlement(*old(slot), result),
{
    match check_abort(slot, caller) {
        Err(rejection) => {
            return Err(rejection);
        },
        Ok(_) => {},
    }
    let escrow = match *slot {
        Some(escrow) => escrow,
        None => {
            return Err(Rejection::NoGame);
        },
    };
    let mut game = escrow.game;
    if now < game.expiry_ts {
        return Err(Rejection::Rule(CustomError::NotExpired));
    }
    game.is_active = false;
    game.state = STATE_FINISHED;
    *slot = None;
    Ok(Settlement { recipient: game.player, amount: escrow.vault.balance, game })
}

} // verus!
