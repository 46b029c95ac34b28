use vstd::prelude::*;

verus! {

/// Why an operation was refused. Every failure is a precondition violation:
/// the operation returns the error and leaves all state exactly as it was.
#[derive(Clone, Copy, PartialEq, Eq, Structural, Debug)]
pub enum ErrorCode {
    /// `activate_game` was called on a session that is already activated.
    AlreadyStarted,
    /// `submit_score` was called before the session was activated.
    GameNotStarted,
    /// The session has already been completed.
    GameCompleted,
    /// `start_game_session` asked to escrow more than the player's balance.
    InsufficientFunds,
    /// `start_game_session` would reuse an existing (player, time) key.
    DuplicateSession,
}

} // verus!
