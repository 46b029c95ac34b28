use vstd::prelude::*;

use crate::errors::ErrorCode;
use crate::player::PlayerId;

verus! {

/// One game attempt by one participant. A record is created in the created
/// state by `start_game_session`, activated at most once, and completed at
/// most once with a score; the pair (`player`, `timestamp`) identifies it.
#[derive(Clone, Copy, PartialEq, Eq, Structural, Debug)]
pub struct GameSession {
    /// Who paid for the attempt; never changes after creation.
    pub player: PlayerId,
    /// How much was escrowed at creation; never changes.
    pub amount_paid: u64,
    /// Creation time; together with `player` the record's unique key.
    pub timestamp: i64,
    /// False until the activation succeeds.
    pub game_started: bool,
    /// Zero until completion; written exactly once, by `submit_score`.
    pub score: u64,
    /// Terminal marker: true once a score has been submitted.
    pub completed: bool,
}

impl GameSession {
    /// Validity of a single record: a completed session was necessarily
    /// activated first, and the score stays zero until completion.
    pub open spec fn wf(self) -> bool {
        &&& self.completed ==> self.game_started
        &&& !self.completed ==> self.score == 0
    }

    /// Position in the lifecycle: 0 = created, 1 = activated, 2 = completed.
    pub open spec fn lifecycle_rank(self) -> int {
        if self.completed {
            2
        } else if self.game_started {
            1
        } else {
            0
        }
    }

    /// A fresh record in the created state.
    pub fn new(player: PlayerId, amount_paid: u64, timestamp: i64) -> (s: GameSession)
        ensures
            s == (GameSession {
                player,
                amount_paid,
                timestamp,
                game_started: false,
                score: 0,
                completed: false,
            }),
            s.wf(),
            s.lifecycle_rank() == 0,
    {
        GameSession {
            player,
            amount_paid,
            timestamp,
            game_started: false,
            score: 0,
            completed: false,
        }
    }

    /// The one permitted activation. Succeeds exactly on a created session;
    /// on failure nothing changes. The lifecycle only moves forward, one
    /// state at a time: a success is exactly the step from created to
    /// activated.
    pub fn activate(&mut self) -> (r: Result<(), ErrorCode>)
        ensures
            old(self).game_started ==> r == Err::<(), ErrorCode>(ErrorCode::AlreadyStarted),
            !old(self).game_started && old(self).completed ==> r == Err::<(), ErrorCode>(
                ErrorCode::GameCompleted,
            ),
            !old(self).game_started && !old(self).completed ==> r == Ok::<(), ErrorCode>(()),
            r is Err ==> *final(self) == *old(self),
            r is Ok ==> *final(self) == (GameSession { game_started: true, ..*old(self) }),
            old(self).wf() ==> final(self).wf(),
            final(self).lifecycle_rank() >= old(self).lifecycle_rank(),
            r is Ok ==> final(self).lifecycle_rank() == old(self).lifecycle_rank() + 1,
    {
        if self.game_started {
            return Err(ErrorCode::AlreadyStarted);
        }
        if self.completed {
            return Err(ErrorCode::GameCompleted);
        }
        self.game_started = true;
        Ok(())
    }

    /// The one permitted completion. Succeeds exactly on an activated,
    /// not yet completed session; on failure nothing changes. A success is
    /// exactly the step from activated to completed, and writes the score.
    pub fn record_score(&mut self, score: u64) -> (r: Result<(), ErrorCode>)
        ensures
            !old(self).game_started ==> r == Err::<(), ErrorCode>(ErrorCode::GameNotStarted),
            old(self).game_started && old(self).completed ==> r == Err::<(), ErrorCode>(
                ErrorCode::GameCompleted,
            ),
            old(self).game_started && !old(self).completed ==> r == Ok::<(), ErrorCode>(()),
            r is Err ==> *final(self) == *old(self),
            r is Ok ==> *final(self) == (GameSession { score, completed: true, ..*old(self) }),
            old(self).wf() ==> final(self).wf(),
            final(self).lifecycle_rank() >= old(self).lifecycle_rank(),
            r is Ok ==> final(self).lifecycle_rank() == old(self).lifecycle_rank() + 1,
    {
        if !self.game_started {
            return Err(ErrorCode::GameNotStarted);
        }
        if self.completed {
            return Err(ErrorCode::GameCompleted);
        }
        self.score = score;
        self.completed = true;
        Ok(())
    }
}

/// Law: the lifecycle has no shortcut — a valid completed session was
/// activated first, so no record ever reaches the completed state while
/// skipping the activated one.
pub proof fn lemma_no_skipped_state(s: GameSession)
    requires
        s.wf(),
    ensures
        s.completed ==> s.game_started,
        s.lifecycle_rank() == 2 ==> s.game_started,
{
}

} // verus!
