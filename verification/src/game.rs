use vstd::prelude::*;

use crate::errors::ErrorCode;
use crate::leaderboard::aggregated;
use crate::leaderboard::sorted_desc;
use crate::leaderboard::top_view;
use crate::leaderboard::Leaderboard;
use crate::leaderboard::LeaderboardEntry;
use crate::leaderboard::MAX_ENTRIES;
use crate::player::PlayerId;
use crate::session::GameSession;

verus! {

/// How many of the stored sessions are completed. Submission is the only
/// way a session completes and sessions are never deleted, so this is also
/// the number of submissions that ever succeeded.
pub open spec fn num_completed(s: Seq<GameSession>) -> int
    decreases s.len(),
{
    if s.len() == 0 {
        0
    } else {
        num_completed(s.drop_last()) + if s.last().completed {
            1int
        } else {
            0int
        }
    }
}

/// No two stored sessions share the (player, creation time) key.
pub open spec fn unique_keys(s: Seq<GameSession>) -> bool {
    forall|i: int, j: int|
        #![trigger s[i], s[j]]
        0 <= i < j < s.len() ==> !(s[i].player == s[j].player && s[i].timestamp == s[j].timestamp)
}

/// Some stored session carries the (player, creation time) key.
pub open spec fn has_session(s: Seq<GameSession>, player: PlayerId, timestamp: i64) -> bool {
    exists|i: int|
        0 <= i < s.len() && (#[trigger] s[i]).player == player && s[i].timestamp == timestamp
}

pub proof fn lemma_num_completed_push(s: Seq<GameSession>, x: GameSession)
    ensures
        num_completed(s.push(x)) == num_completed(s) + if x.completed {
            1int
        } else {
            0int
        },
{
    assert(s.push(x).drop_last() =~= s);
    assert(s.push(x).last() == x);
}

pub proof fn lemma_num_completed_update(s: Seq<GameSession>, i: int, x: GameSession)
    requires
        0 <= i < s.len(),
    ensures
        num_completed(s.update(i, x)) == num_completed(s) - (if s[i].completed {
            1int
        } else {
            0int
        }) + (if x.completed {
            1int
        } else {
            0int
        }),
    decreases s.len(),
{
    let t = s.update(i, x);
    if i == s.len() - 1 {
        assert(t.drop_last() =~= s.drop_last());
        assert(t.last() == x);
        assert(s.last() == s[i]);
    } else {
        assert(t.drop_last() =~= s.drop_last().update(i, x));
        assert(t.last() == s.last());
        lemma_num_completed_update(s.drop_last(), i, x);
        assert(s.drop_last()[i] == s[i]);
    }
}

/// Appending a session whose key is absent keeps the keys unique.
pub proof fn lemma_unique_keys_push(s: Seq<GameSession>, x: GameSession)
    requires
        unique_keys(s),
        !has_session(s, x.player, x.timestamp),
    ensures
        unique_keys(s.push(x)),
{
    let t = s.push(x);
    assert forall|i: int, j: int|
        #![trigger t[i], t[j]]
        0 <= i < j < t.len() implies !(t[i].player == t[j].player && t[i].timestamp
        == t[j].timestamp) by {
        if j < s.len() {
            assert(t[i] == s[i]);
            assert(t[j] == s[j]);
        } else {
            assert(t[j] == x);
            assert(t[i] == s[i]);
            if s[i].player == x.player && s[i].timestamp == x.timestamp {
                assert(has_session(s, x.player, x.timestamp));
            }
        }
    }
}

/// Replacing a session by one with the same key keeps the keys unique.
pub proof fn lemma_unique_keys_update(s: Seq<GameSession>, i: int, x: GameSession)
    requires
        unique_keys(s),
        0 <= i < s.len(),
        x.player == s[i].player,
        x.timestamp == s[i].timestamp,
    ensures
        unique_keys(s.update(i, x)),
{
    let t = s.update(i, x);
    assert forall|k: int, j: int|
        #![trigger t[k], t[j]]
        0 <= k < j < t.len() implies !(t[k].player == t[j].player && t[k].timestamp
        == t[j].timestamp) by {
        assert(s[k] == if k == i { s[i] } else { t[k] });
        assert(s[j] == if j == i { s[i] } else { t[j] });
    }
}

/// The whole program state: the singleton leaderboard and the session
/// store, one record per attempt, keyed by (player, creation time).
pub struct Game {
    pub leaderboard: Leaderboard,
    pub sessions: Vec<GameSession>,
}

/// What a read of the leaderboard returns: the games counter and the
/// leading entries, best first.
#[derive(Clone, PartialEq, Debug)]
pub struct LeaderboardView {
    pub total_games: u64,
    pub top: Vec<LeaderboardEntry>,
}

impl Game {
    /// Validity of the whole state: the board is well formed, session keys
    /// are unique, every session is well formed, and the games counter
    /// equals the number of completed sessions.
    pub open spec fn wf(self) -> bool {
        &&& self.leaderboard.wf()
        &&& unique_keys(self.sessions@)
        &&& (forall|i: int| 0 <= i < self.sessions@.len() ==> (#[trigger] self.sessions@[i]).wf())
        &&& self.leaderboard.total_games == num_completed(self.sessions@)
    }

    /// Create the program state: an empty leaderboard owned by `authority`
    /// and an empty session store.
    pub fn initialize(authority: PlayerId) -> (g: Game)
        ensures
            g.wf(),
            g.leaderboard.authority == authority,
            g.leaderboard.total_games == 0,
            g.leaderboard.entries@ == Seq::<LeaderboardEntry>::empty(),
            g.sessions@ == Seq::<GameSession>::empty(),
    {
        Game { leaderboard: Leaderboard::new(authority), sessions: Vec::new() }
    }

    /// Open a new session for `player`, escrowing `amount` at time `now`.
    ///
    /// `balance` is the player's token balance as the ledger reports it at
    /// the time of the call; the caller moves `amount` from the player to
    /// the game custody exactly when this returns `Ok`, atomically with it.
    /// A failure creates nothing: the state is exactly as it was. On
    /// success the result is the new session's reference (its index in the
    /// session store).
    pub fn start_game_session(
        &mut self,
        player: PlayerId,
        amount: u64,
        now: i64,
        balance: u64,
    ) -> (r: Result<usize, ErrorCode>)
        requires
            old(self).wf(),
        ensures
            final(self).wf(),
            has_session(old(self).sessions@, player, now) ==> r == Err::<usize, ErrorCode>(
                ErrorCode::DuplicateSession,
            ),
            !has_session(old(self).sessions@, player, now) && amount > balance ==> r == Err::<
                usize,
                ErrorCode,
            >(ErrorCode::InsufficientFunds),
            !has_session(old(self).sessions@, player, now) && amount <= balance ==> r == Ok::<
                usize,
                ErrorCode,
            >(old(self).sessions@.len() as usize),
            r is Err ==> *final(self) == *old(self),
            r is Ok ==> final(self).sessions@ == old(self).sessions@.push(
                (GameSession {
                    player,
                    amount_paid: amount,
                    timestamp: now,
                    game_started: false,
                    score: 0,
                    completed: false,
                }),
            ),
            final(self).leaderboard == old(self).leaderboard,
    {
        if session_exists(&self.sessions, player, now) {
            return Err(ErrorCode::DuplicateSession);
        }
        if amount > balance {
            return Err(ErrorCode::InsufficientFunds);
        }
        let idx = self.sessions.len();
        let s = GameSession::new(player, amount, now);
        self.sessions.push(s);
        proof {
            lemma_num_completed_push(old(self).sessions@, s);
            lemma_unique_keys_push(old(self).sessions@, s);
        }
        Ok(idx)
    }

    /// Flip a created session to activated; the one permitted activation.
    ///
    /// `session` is the caller's reference to the record, an index into the
    /// session store; the host resolves references before the call, so it
    /// is in range. A failure mutates nothing.
    pub fn activate_game(&mut self, session: usize) -> (r: Result<(), ErrorCode>)
        requires
            old(self).wf(),
            session < old(self).sessions@.len(),
        ensures
            final(self).wf(),
            final(self).leaderboard == old(self).leaderboard,
            old(self).sessions@[session as int].game_started ==> r == Err::<(), ErrorCode>(
                ErrorCode::AlreadyStarted,
            ),
            !old(self).sessions@[session as int].game_started && old(
                self,
            ).sessions@[session as int].completed ==> r == Err::<(), ErrorCode>(
                ErrorCode::GameCompleted,
            ),
            !old(self).sessions@[session as int].game_started && !old(
                self,
            ).sessions@[session as int].completed ==> r == Ok::<(), ErrorCode>(()),
            r is Err ==> *final(self) == *old(self),
            r is Ok ==> final(self).sessions@ == old(self).sessions@.update(
                session as int,
                (GameSession { game_started: true, ..old(self).sessions@[session as int] }),
            ),
    {
        let mut s = self.sessions[session];
        let r = s.activate();
        match r {
            Ok(()) => {
                self.sessions[session] = s;
                proof {
                    lemma_num_completed_update(old(self).sessions@, session as int, s);
                    lemma_unique_keys_update(old(self).sessions@, session as int, s);
                }
                Ok(())
            },
            Err(e) => Err(e),
        }
    }

    /// Complete an activated session with `score`, then fold the result
    /// into the leaderboard: the new entry is placed in score order, the
    /// games counter grows by one, and whatever now lies beyond the
    /// capacity is evicted from the low-score end. `now` is the submission
    /// time the host clock reports. This is the only operation that touches
    /// the leaderboard, and a failure leaves sessions and leaderboard
    /// exactly as they were.
    pub fn submit_score(&mut self, session: usize, score: u64, now: i64) -> (r: Result<
        (),
        ErrorCode,
    >)
        requires
            old(self).wf(),
            session < old(self).sessions@.len(),
            old(self).leaderboard.total_games < u64::MAX,
        ensures
            final(self).wf(),
            !old(self).sessions@[session as int].game_started ==> r == Err::<(), ErrorCode>(
                ErrorCode::GameNotStarted,
            ),
            old(self).sessions@[session as int].game_started && old(
                self,
            ).sessions@[session as int].completed ==> r == Err::<(), ErrorCode>(
                ErrorCode::GameCompleted,
            ),
            old(self).sessions@[session as int].game_started && !old(
                self,
            ).sessions@[session as int].completed ==> r == Ok::<(), ErrorCode>(()),
            r is Err ==> *final(self) == *old(self),
            r is Ok ==> final(self).sessions@ == old(self).sessions@.update(
                session as int,
                (GameSession { score, completed: true, ..old(self).sessions@[session as int] }),
            ),
            r is Ok ==> final(self).leaderboard.entries@ == aggregated(
                old(self).leaderboard.entries@,
                (LeaderboardEntry {
                    player: old(self).sessions@[session as int].player,
                    score,
                    timestamp: now,
                }),
            ),
            r is Ok ==> final(self).leaderboard.total_games == old(self).leaderboard.total_games
                + 1,
            final(self).leaderboard.authority == old(self).leaderboard.authority,
            sorted_desc(final(self).leaderboard.entries@),
            final(self).leaderboard.entries@.len() <= MAX_ENTRIES,
    {
        let mut s = self.sessions[session];
        let r = s.record_score(score);
        match r {
            Ok(()) => {
                self.sessions[session] = s;
                let entry = LeaderboardEntry { player: s.player, score, timestamp: now };
                self.leaderboard.record(entry);
                proof {
                    lemma_num_completed_update(old(self).sessions@, session as int, s);
                    lemma_unique_keys_update(old(self).sessions@, session as int, s);
                }
                Ok(())
            },
            Err(e) => Err(e),
        }
    }

    /// Read-only query of the leaderboard: the games counter and the first
    /// `TOP_REPORTED` entries (or all of them, if fewer). The result is a
    /// function of the current state alone and the state is untouched, so
    /// two reads with no submission between them return the same view.
    pub fn get_leaderboard(&self) -> (v: LeaderboardView)
        ensures
            v.total_games == self.leaderboard.total_games,
            v.top@ == top_view(self.leaderboard),
    {
        LeaderboardView {
            total_games: self.leaderboard.total_games,
            top: self.leaderboard.top_entries(),
        }
    }
}

/// Law: the games counter counts exactly the completed sessions — one per
/// successful submission — however many entries eviction has removed.
pub proof fn lemma_counter_counts_completed(g: Game)
    requires
        g.wf(),
    ensures
        g.leaderboard.total_games == num_completed(g.sessions@),
{
}

/// Law: in every valid state the board is sorted by score descending, holds
/// at most the capacity, and never more entries than games were counted.
pub proof fn lemma_board_invariant(g: Game)
    requires
        g.wf(),
    ensures
        sorted_desc(g.leaderboard.entries@),
        g.leaderboard.entries@.len() <= MAX_ENTRIES,
        g.leaderboard.total_games >= g.leaderboard.entries@.len(),
{
}

/// True exactly when some stored session carries the key (player, time).
fn session_exists(sessions: &Vec<GameSession>, player: PlayerId, timestamp: i64) -> (r: bool)
    ensures
        r == has_session(sessions@, player, timestamp),
{
    let mut i: usize = 0;
    while i < sessions.len()
        invariant
            i <= sessions@.len(),
            forall|k: int|
                0 <= k < i ==> !((#[trigger] sessions@[k]).player == player
                    && sessions@[k].timestamp == timestamp),
        decreases sessions@.len() - i,
    {
        if sessions[i].player == player && sessions[i].timestamp == timestamp {
            return true;
        }
        i = i + 1;
    }
    false
}

} // verus!
