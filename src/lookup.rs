use vstd::prelude::*;

use crate::stamp::{Stamp, offsets_ascending, scores_nondecreasing, scores_nonnegative, lemma_offsets_ordered, lemma_scores_ordered};

verus! {

/// Why a lookup could not answer.
#[derive(Debug, Clone, Copy, PartialEq, Eq, Structural)]
pub enum LookupError {
    /// The log holds no stamp at all.
    EmptySequence,
}

/// The position of the first stamp whose offset is strictly greater than
/// `offset`, or the length of `s` when there is none.
pub open spec fn first_after(s: Seq<Stamp>, offset: i32) -> nat
    decreases s.len(),
{
    if s.len() == 0 {
        0
    } else if s[0].offset > offset {
        0
    } else {
        1 + first_after(s.drop_first(), offset)
    }
}

/// The score at or before `offset`: that of the stamp just before the first
/// one past `offset`, or (0, 0) when the first stamp is already past it.
pub open spec fn score_at(s: Seq<Stamp>, offset: i32) -> (i32, i32) {
    let k = first_after(s, offset);
    if k == 0 {
        (0i32, 0i32)
    } else {
        (s[k - 1].score.home, s[k - 1].score.away)
    }
}

/// `first_after` is a position whose predecessors all lie at or before
/// `offset` and which is either the end or past `offset`.
pub proof fn lemma_first_after_bounds(s: Seq<Stamp>, offset: i32)
    ensures
        first_after(s, offset) <= s.len(),
        forall|j: int| 0 <= j < first_after(s, offset) ==> #[trigger] s[j].offset <= offset,
        first_after(s, offset) == s.len() || s[first_after(s, offset) as int].offset > offset,
    decreases s.len(),
{
    if s.len() > 0 && s[0].offset <= offset {
        let t = s.drop_first();
        lemma_first_after_bounds(t, offset);
        assert forall|j: int| 0 <= j < first_after(s, offset) implies #[trigger] s[j].offset <= offset by {
            if j > 0 {
                assert(s[j] == t[j - 1]);
            }
        }
    }
}

/// A position with the properties of `lemma_first_after_bounds` is
/// `first_after`.
proof fn lemma_first_after_unique(s: Seq<Stamp>, offset: i32, k: int)
    requires
        0 <= k <= s.len(),
        forall|j: int| 0 <= j < k ==> #[trigger] s[j].offset <= offset,
        k == s.len() || s[k].offset > offset,
    ensures
        first_after(s, offset) == k,
    decreases k,
{
    if k > 0 {
        let t = s.drop_first();
        assert(s[0].offset <= offset);
        assert forall|j: int| 0 <= j < k - 1 implies #[trigger] t[j].offset <= offset by {
            assert(t[j] == s[j + 1]);
        }
        if k < s.len() {
            assert(t[k - 1] == s[k]);
        }
        lemma_first_after_unique(t, offset, k - 1);
    }
}

/// The score `(home, away)` at or before `offset`: that of the last stamp
/// whose offset does not exceed `offset`, or (0, 0) when even the first stamp
/// lies past it. The log must hold at least one stamp.
pub fn get_score(game_stamps: &[Stamp], offset: i32) -> (r: (i32, i32))
    requires
        game_stamps@.len() > 0,
    ensures
        r == score_at(game_stamps@, offset),
{
    let mut i: usize = 0;
    while i < game_stamps.len() && game_stamps[i].offset <= offset
        invariant
            i <= game_stamps@.len(),
            forall|j: int| 0 <= j < i ==> #[trigger] game_stamps@[j].offset <= offset,
        decreases game_stamps@.len() - i,
    {
        i = i + 1;
    }
    proof {
        lemma_first_after_unique(game_stamps@, offset, i as int);
    }
    if i == 0 {
        (0, 0)
    } else {
        let score = game_stamps[i - 1].score;
        (score.home, score.away)
    }
}

/// Like `get_score`, but answers `EmptySequence` for a log with no stamp.
pub fn query(game_stamps: &[Stamp], offset: i32) -> (r: Result<(i32, i32), LookupError>)
    ensures
        game_stamps@.len() == 0 ==> r == Err::<(i32, i32), LookupError>(LookupError::EmptySequence),
        game_stamps@.len() > 0 ==> r == Ok::<(i32, i32), LookupError>(score_at(game_stamps@, offset)),
{
    if game_stamps.len() == 0 {
        Err(LookupError::EmptySequence)
    } else {
        Ok(get_score(game_stamps, offset))
    }
}

/// Looking up the exact offset of a stamp in a log with strictly ascending
/// offsets gives that stamp's score.
pub proof fn lemma_score_at_own_offset(s: Seq<Stamp>, i: int)
    requires
        offsets_ascending(s),
        0 <= i < s.len(),
    ensures
        score_at(s, s[i].offset) == (s[i].score.home, s[i].score.away),
{
    let o = s[i].offset;
    assert forall|j: int| 0 <= j < i + 1 implies #[trigger] s[j].offset <= o by {
        if j < i {
            lemma_offsets_ordered(s, j, i);
        }
    }
    if i + 1 < s.len() {
        assert(s[i].offset < s[i + 1].offset);
    }
    lemma_first_after_unique(s, o, i + 1);
}

/// In a log whose counters start non-negative and never decrease, a later
/// offset never gives a smaller home or away count.
pub proof fn lemma_score_at_monotonic(s: Seq<Stamp>, offset1: i32, offset2: i32)
    requires
        scores_nondecreasing(s),
        scores_nonnegative(s),
        offset1 <= offset2,
    ensures
        score_at(s, offset1).0 <= score_at(s, offset2).0,
        score_at(s, offset1).1 <= score_at(s, offset2).1,
{
    let k1 = first_after(s, offset1);
    let k2 = first_after(s, offset2);
    lemma_first_after_bounds(s, offset1);
    lemma_first_after_bounds(s, offset2);
    if k1 > k2 {
        assert(s[k2 as int].offset <= offset1);
    }
    if k2 > 0 {
        assert(0 <= s[k2 - 1].score.home && 0 <= s[k2 - 1].score.away);
        if k1 > 0 {
            lemma_scores_ordered(s, k1 - 1, k2 - 1);
        }
    }
}

/// An offset before the first stamp gives the score (0, 0).
pub proof fn lemma_score_before_first(s: Seq<Stamp>, offset: i32)
    requires
        s.len() > 0,
        offset < s[0].offset,
    ensures
        score_at(s, offset) == (0i32, 0i32),
{
}

} // verus!
