//! Why an operation is refused.

use vstd::prelude::*;

verus! {

/// A rule of the game that an operation broke.
#[derive(Clone, Copy, Debug, PartialEq, Eq, Structural)]
pub enum CustomError {
    /// The mine count is zero or leaves no safe tile.
    InvalidNumMines,
    /// The game has been finalized.
    GameNotActive,
    /// The tile index is beyond the board.
    InvalidTileIndex,
    /// The tile has been revealed before.
    TileAlreadyRevealed,
    /// The stake is zero.
    InvalidBetAmount,
    /// The vault holds less than is to be paid.
    InsufficientVaultFunds,
    /// The operation is kept for old clients only and always fails.
    DeprecatedInstruction,
    /// The claim about a tile is not consistent with the commitment.
    InvalidCommitment,
    /// The game is active but not in the committed state.
    GameNotRevealed,
    /// The player has hit a mine.
    PlayerLost,
    /// The player has not hit a mine.
    GameNotLost,
    /// No tile has been revealed yet.
    NothingToCashOut,
    /// The deadline has not passed yet.
    NotExpired,
}

/// Why an operation on a game slot is refused.
#[derive(Clone, Copy, Debug, PartialEq, Eq, Structural)]
pub enum Rejection {
    /// The slot holds no game: none was started, or it has been settled.
    NoGame,
    /// The caller is not the party of record that the operation is for.
    Unauthorized,
    /// The game is there and the caller is right, but a rule refuses.
    Rule(CustomError),
}

} // verus!
