//! The per-game record, its vault, and what it means for them to be sound.

use vstd::prelude::*;

verus! {

/// Number of tiles on a board.
pub const MAX_BOARD_SIZE: usize = 25;

/// Largest number of mines a board may hold; at least one tile stays safe.
pub const MAX_MINES: usize = 24;

/// Seconds after the start at which the player may abort a stalled game.
pub const DEFAULT_EXPIRY_SECS: i64 = 600;

/// The board is committed to and tiles may be revealed.
pub const STATE_COMMITTED: u8 = 0;

/// The game has reached its end.
pub const STATE_FINISHED: u8 = 2;

/// The funds holder of one game.
#[derive(Clone, Copy, Debug, PartialEq, Eq)]
pub struct Vault {
    /// The bump byte of the address the vault is derived at.
    pub bump: u8,
    /// The funds held.
    pub balance: u64,
}

/// The record of one game.
#[derive(Clone, Copy, Debug, PartialEq, Eq)]
pub struct MinesGame {
    pub player: [u8; 32],
    /// Who collects the stake when the player hits a mine.
    pub house: [u8; 32],
    pub bet_amount: u64,
    pub num_mines: u8,
    /// Unused: the board is never disclosed as a whole. Always all false.
    pub mine_positions: [bool; 25],
    pub revealed_tiles: [bool; 25],
    pub is_active: bool,
    pub lost: bool,
    pub revealed_count: u8,
    /// The Merkle root of the board.
    pub commitment: [u8; 32],
    pub state: u8,
    pub started_at: i64,
    pub expiry_ts: i64,
}

/// A game together with the vault that holds its stake. The two are created
/// together and leave together.
#[derive(Clone, Copy, Debug, PartialEq, Eq)]
pub struct Escrow {
    pub game: MinesGame,
    pub vault: Vault,
}

/// What leaves the vault when a game is settled.
#[derive(Clone, Copy, Debug, PartialEq, Eq)]
pub struct Settlement {
    /// Who receives the funds.
    pub recipient: [u8; 32],
    /// How much is paid: all the vault held.
    pub amount: u64,
    /// The record as it stood when it was closed.
    pub game: MinesGame,
}

/// The number of true entries of `bits`.
pub open spec fn count_true(bits: Seq<bool>) -> nat
    decreases bits.len(),
{
    if bits.len() == 0 {
        0
    } else {
        count_true(bits.drop_last()) + if bits.last() {
            1nat
        } else {
            0nat
        }
    }
}

/// The deadline of a game started at `started_at`: a fixed span later, or the
/// largest time there is where that would be beyond it.
pub open spec fn expiry_of(started_at: i64) -> i64 {
    if started_at + DEFAULT_EXPIRY_SECS > i64::MAX {
        i64::MAX
    } else {
        (started_at + DEFAULT_EXPIRY_SECS) as i64
    }
}

/// Whether a mine count is allowed: at least one mine, at least one safe tile.
pub open spec fn valid_num_mines(num_mines: u8) -> bool {
    0 < num_mines && num_mines <= MAX_MINES && num_mines < MAX_BOARD_SIZE
}

impl MinesGame {
    /// What holds of every record that the operations of this crate produce.
    pub open spec fn wf(&self) -> bool {
        &&& self.bet_amount > 0
        &&& valid_num_mines(self.num_mines)
        &&& forall|i: int| 0 <= i < MAX_BOARD_SIZE ==> !self.mine_positions[i]
        &&& self.revealed_count == count_true(self.revealed_tiles@)
        &&& (self.state == STATE_COMMITTED || self.state == STATE_FINISHED)
        &&& (self.is_active <==> self.state == STATE_COMMITTED)
        &&& (self.lost ==> !self.is_active && self.revealed_count > 0)
        &&& self.expiry_ts == expiry_of(self.started_at)
    }
}

impl Escrow {
    /// The record is sound and the vault holds exactly the stake.
    pub open spec fn wf(&self) -> bool {
        &&& self.game.wf()
        &&& self.vault.balance == self.game.bet_amount
    }
}

} // verus!
