use vstd::prelude::*;

use crate::player::PlayerId;

verus! {

/// Greatest number of entries the leaderboard retains.
pub const MAX_ENTRIES: usize = 100;

/// Number of leading entries the read-only query reports.
pub const TOP_REPORTED: usize = 10;

/// One row of the leaderboard; immutable once inserted.
#[derive(Clone, Copy, PartialEq, Eq, Structural, Debug)]
pub struct LeaderboardEntry {
    pub player: PlayerId,
    pub score: u64,
    pub timestamp: i64,
}

/// `s` is ordered by score, highest first.
pub open spec fn sorted_desc(s: Seq<LeaderboardEntry>) -> bool {
    forall|i: int, j: int|
        #![trigger s[i], s[j]]
        0 <= i < j < s.len() ==> s[i].score >= s[j].score
}

/// Where a new entry lands: after every entry whose score is at least as
/// high — so among equal scores the older entry ranks first — and before the
/// first strictly lower one.
pub open spec fn insert_desc(s: Seq<LeaderboardEntry>, e: LeaderboardEntry) -> Seq<LeaderboardEntry>
    decreases s.len(),
{
    if s.len() == 0 {
        seq![e]
    } else if s[0].score >= e.score {
        seq![s[0]] + insert_desc(s.drop_first(), e)
    } else {
        seq![e] + s
    }
}

/// What one submission leaves in `entries`: the new entry placed in order,
/// then everything beyond the capacity dropped from the low-score end.
pub open spec fn aggregated(s: Seq<LeaderboardEntry>, e: LeaderboardEntry) -> Seq<LeaderboardEntry> {
    let placed = insert_desc(s, e);
    if placed.len() <= MAX_ENTRIES {
        placed
    } else {
        placed.take(MAX_ENTRIES as int)
    }
}

/// Placing an entry after the `p` higher-or-equal scores and before the first
/// strictly lower one is exactly an insertion at index `p`.
pub proof fn lemma_insert_desc_at(s: Seq<LeaderboardEntry>, e: LeaderboardEntry, p: int)
    requires
        0 <= p <= s.len(),
        forall|i: int| 0 <= i < p ==> (#[trigger] s[i]).score >= e.score,
        p < s.len() ==> s[p].score < e.score,
    ensures
        insert_desc(s, e) == s.insert(p, e),
    decreases p,
{
    if p == 0 {
        if s.len() == 0 {
            assert(insert_desc(s, e) =~= s.insert(0, e));
        } else {
            assert(s[0].score < e.score);
            assert(insert_desc(s, e) =~= s.insert(0, e));
        }
    } else {
        assert(s[0].score >= e.score);
        let t = s.drop_first();
        assert forall|i: int| 0 <= i < p - 1 implies (#[trigger] t[i]).score >= e.score by {
            assert(t[i] == s[i + 1]);
        }
        if p - 1 < t.len() {
            assert(t[p - 1] == s[p]);
        }
        lemma_insert_desc_at(t, e, p - 1);
        assert(insert_desc(s, e) =~= s.insert(p, e));
    }
}

/// Inserting at that index keeps the descending order.
pub proof fn lemma_insert_at_keeps_sorted(s: Seq<LeaderboardEntry>, e: LeaderboardEntry, p: int)
    requires
        sorted_desc(s),
        0 <= p <= s.len(),
        forall|i: int| 0 <= i < p ==> (#[trigger] s[i]).score >= e.score,
        p < s.len() ==> s[p].score < e.score,
    ensures
        sorted_desc(s.insert(p, e)),
{
    let t = s.insert(p, e);
    s.insert_ensures(p, e);
    assert forall|i: int, j: int|
        #![trigger t[i], t[j]]
        0 <= i < j < t.len() implies t[i].score >= t[j].score by {
        if i < p {
            assert(t[i] == s[i]);
        } else if i > p {
            assert(t[i] == s[i - 1]);
        }
        if j < p {
            assert(t[j] == s[j]);
        } else if j > p {
            assert(t[j] == s[j - 1]);
        }
    }
}

/// A prefix of a descending sequence is descending.
pub proof fn lemma_take_keeps_sorted(s: Seq<LeaderboardEntry>, n: int)
    requires
        sorted_desc(s),
        0 <= n <= s.len(),
    ensures
        sorted_desc(s.take(n)),
{
    let t = s.take(n);
    assert forall|i: int, j: int|
        #![trigger t[i], t[j]]
        0 <= i < j < t.len() implies t[i].score >= t[j].score by {
        assert(t[i] == s[i]);
        assert(t[j] == s[j]);
    }
}

/// The global, capacity-bounded, score-sorted record of the best results.
#[derive(Clone, Debug)]
pub struct Leaderboard {
    /// Who created the record; not consulted for later mutations.
    pub authority: PlayerId,
    /// How many submissions ever succeeded; never decreases, never reset,
    /// unaffected by eviction.
    pub total_games: u64,
    /// The retained results, ordered by score, highest first.
    pub entries: Vec<LeaderboardEntry>,
}

/// The leading entries a read reports: the whole board if it is short,
/// otherwise its first `TOP_REPORTED` rows.
pub open spec fn top_view(l: Leaderboard) -> Seq<LeaderboardEntry> {
    if l.entries@.len() <= TOP_REPORTED {
        l.entries@
    } else {
        l.entries@.take(TOP_REPORTED as int)
    }
}

impl Leaderboard {
    /// Validity of the record: bounded, ordered, and the counter dominates
    /// the number of retained entries (entries can be evicted, the counter
    /// never decreases).
    pub open spec fn wf(self) -> bool {
        &&& self.entries@.len() <= MAX_ENTRIES
        &&& sorted_desc(self.entries@)
        &&& self.total_games >= self.entries@.len()
    }

    /// An empty board owned by `authority`, with the counter at zero.
    pub fn new(authority: PlayerId) -> (l: Leaderboard)
        ensures
            l.authority == authority,
            l.total_games == 0,
            l.entries@ == Seq::<LeaderboardEntry>::empty(),
            l.wf(),
    {
        Leaderboard { authority, total_games: 0, entries: Vec::new() }
    }

    /// The aggregation step run once per successful submission: place the
    /// new entry in score order, count it, and evict whatever now lies
    /// beyond the capacity. The counter grows even when the entry itself is
    /// immediately evicted.
    pub fn record(&mut self, entry: LeaderboardEntry)
        requires
            old(self).wf(),
            old(self).total_games < u64::MAX,
        ensures
            final(self).wf(),
            final(self).authority == old(self).authority,
            final(self).total_games == old(self).total_games + 1,
            final(self).entries@ == aggregated(old(self).entries@, entry),
            sorted_desc(final(self).entries@),
            final(self).entries@.len() <= MAX_ENTRIES,
    {
        let pos = find_insert_pos(&self.entries, entry.score);
        proof {
            lemma_insert_desc_at(self.entries@, entry, pos as int);
            lemma_insert_at_keeps_sorted(self.entries@, entry, pos as int);
        }
        self.entries.insert(pos, entry);
        self.total_games = self.total_games + 1;
        if self.entries.len() > MAX_ENTRIES {
            proof {
                lemma_take_keeps_sorted(self.entries@, MAX_ENTRIES as int);
            }
            self.entries.truncate(MAX_ENTRIES);
        }
    }

    /// Read-only projection of the leading entries, in board order.
    pub fn top_entries(&self) -> (v: Vec<LeaderboardEntry>)
        ensures
            v@ == top_view(*self),
    {
        let mut v: Vec<LeaderboardEntry> = Vec::new();
        let mut i: usize = 0;
        while i < self.entries.len() && i < TOP_REPORTED
            invariant
                i <= self.entries@.len(),
                i <= TOP_REPORTED,
                v@ == self.entries@.take(i as int),
            decreases self.entries@.len() - i,
        {
            v.push(self.entries[i]);
            proof {
                assert(v@ =~= self.entries@.take(i as int + 1));
            }
            i = i + 1;
        }
        proof {
            assert(v@ =~= top_view(*self));
        }
        v
    }
}

/// Index of the first entry scoring strictly below `score`, or the length if
/// there is none: the place a new entry with that score belongs.
fn find_insert_pos(entries: &Vec<LeaderboardEntry>, score: u64) -> (pos: usize)
    ensures
        pos <= entries@.len(),
        forall|i: int| 0 <= i < pos ==> (#[trigger] entries@[i]).score >= score,
        pos < entries@.len() ==> entries@[pos as int].score < score,
{
    let mut pos: usize = 0;
    while pos < entries.len()
        invariant
            pos <= entries@.len(),
            forall|i: int| 0 <= i < pos ==> (#[trigger] entries@[i]).score >= score,
        decreases entries@.len() - pos,
    {
        if entries[pos].score < score {
            return pos;
        }
        pos = pos + 1;
    }
    pos
}

} // verus!
