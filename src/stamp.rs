use vstd::prelude::*;

verus! {

/// The two counters of a game: goals of the home side and of the away side.
#[derive(Debug, Clone, Copy, PartialEq, Eq, Structural)]
pub struct Score {
    pub home: i32,
    pub away: i32,
}

/// The score as it stood from `offset` time units after the start on.
#[derive(Debug, Clone, Copy, PartialEq, Eq, Structural)]
pub struct Stamp {
    pub offset: i32,
    pub score: Score,
}

/// The stamp that opens every game: offset 0, no goals.
pub open spec fn is_initial(s: Stamp) -> bool {
    s.offset == 0 && s.score.home == 0 && s.score.away == 0
}

/// Offsets grow strictly from each stamp to the next.
pub open spec fn offsets_ascending(s: Seq<Stamp>) -> bool {
    forall|i: int| 0 <= i < s.len() - 1 ==> #[trigger] s[i].offset < s[i + 1].offset
}

/// Neither counter ever decreases from one stamp to the next.
pub open spec fn scores_nondecreasing(s: Seq<Stamp>) -> bool {
    forall|i: int|
        0 <= i < s.len() - 1 ==> #[trigger] s[i].score.home <= s[i + 1].score.home
            && s[i].score.away <= s[i + 1].score.away
}

/// No step raises both counters.
pub open spec fn one_side_per_step(s: Seq<Stamp>) -> bool {
    forall|i: int|
        0 <= i < s.len() - 1 ==> !(#[trigger] s[i].score.home < s[i + 1].score.home
            && s[i].score.away < s[i + 1].score.away)
}

/// Both counters are non-negative in every stamp.
pub open spec fn scores_nonnegative(s: Seq<Stamp>) -> bool {
    forall|i: int| 0 <= i < s.len() ==> 0 <= #[trigger] s[i].score.home && 0 <= s[i].score.away
}

/// The stamp at offset 0 with both counters at 0.
pub fn initial_stamp() -> (r: Stamp)
    ensures
        is_initial(r),
{
    Stamp { offset: 0, score: Score { home: 0, away: 0 } }
}

/// Strictly ascending adjacent offsets give strictly ascending offsets for any
/// two positions.
pub proof fn lemma_offsets_ordered(s: Seq<Stamp>, i: int, j: int)
    requires
        offsets_ascending(s),
        0 <= i < j < s.len(),
    ensures
        s[i].offset < s[j].offset,
    decreases j - i,
{
    if i + 1 < j {
        lemma_offsets_ordered(s, i + 1, j);
    }
    assert(s[i].offset < s[i + 1].offset);
}

/// Counters that never decrease step by step never decrease between any two
/// positions.
pub proof fn lemma_scores_ordered(s: Seq<Stamp>, i: int, j: int)
    requires
        scores_nondecreasing(s),
        0 <= i <= j < s.len(),
    ensures
        s[i].score.home <= s[j].score.home,
        s[i].score.away <= s[j].score.away,
    decreases j - i,
{
    if i < j {
        lemma_scores_ordered(s, i + 1, j);
        assert(s[i].score.home <= s[i + 1].score.home);
    }
}

} // verus!
