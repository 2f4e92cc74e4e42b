use rand::Rng;
use vstd::prelude::*;

use crate::stamp::{Score, Stamp, initial_stamp, is_initial, offsets_ascending, scores_nondecreasing, one_side_per_step, scores_nonnegative};

verus! {

/// How many steps a standard game has.
pub const TIMESTAMPS_COUNT: usize = 50000;

/// A probability written as the ratio `numerator / denominator`.
#[derive(Debug, Clone, Copy, PartialEq, Eq, Structural)]
pub struct Probability {
    pub numerator: u32,
    pub denominator: u32,
}

impl Probability {
    /// A ratio that lies in [0, 1].
    pub open spec fn is_valid(self) -> bool {
        0 < self.denominator && self.numerator <= self.denominator
    }

    /// The event never happens.
    pub open spec fn is_never(self) -> bool {
        self.numerator == 0
    }

    /// The event always happens.
    pub open spec fn is_certain(self) -> bool {
        self.numerator == self.denominator
    }
}

/// The parameters of game generation.
#[derive(Debug, Clone, Copy, PartialEq, Eq, Structural)]
pub struct GameConfig {
    /// Chance that a step changes the score at all.
    pub score_changed: Probability,
    /// Chance that a change goes to the home side rather than the away side.
    pub home_score: Probability,
    /// Largest offset advance of one step; each step advances by 1 to this.
    pub offset_max_step: i32,
}

impl GameConfig {
    /// Both probabilities lie in [0, 1] and a step can advance the offset.
    pub open spec fn is_valid(self) -> bool {
        self.score_changed.is_valid() && self.home_score.is_valid() && 1 <= self.offset_max_step
    }

    /// The standard game: a change with chance 1/10000, for the home side
    /// with chance 9/20, offsets advancing by 1 to 3.
    pub open spec fn standard_spec() -> GameConfig {
        GameConfig {
            score_changed: Probability { numerator: 1, denominator: 10000 },
            home_score: Probability { numerator: 9, denominator: 20 },
            offset_max_step: 3,
        }
    }

    /// The standard game configuration, `standard_spec`.
    pub fn standard() -> (r: GameConfig)
        ensures
            r == Self::standard_spec(),
    {
        GameConfig {
            score_changed: Probability { numerator: 1, denominator: 10000 },
            home_score: Probability { numerator: 9, denominator: 20 },
            offset_max_step: 3,
        }
    }
}

/// What one step of generation drew.
#[derive(Debug, Clone, Copy, PartialEq, Eq, Structural)]
pub struct StepDraw {
    /// Whether the score changes in this step.
    pub score_changed: bool,
    /// Whether a change goes to the home side; read only when the score changes.
    pub home_score: bool,
    /// How far the offset advances.
    pub offset_change: i32,
}

/// The stamp that follows `prev` after the draws `d`.
pub open spec fn follows(prev: Stamp, d: StepDraw, next: Stamp) -> bool {
    &&& next.offset == prev.offset + d.offset_change
    &&& next.score.home == prev.score.home + if d.score_changed && d.home_score { 1int } else { 0int }
    &&& next.score.away == prev.score.away + if d.score_changed && !d.home_score { 1int } else { 0int }
}

/// What every step under `config` from `prev` to `next` satisfies, whatever
/// was drawn: the offset advances by 1 to `offset_max_step`, at most one
/// counter rises, by one, and a probability of 0 or 1 is honoured.
pub open spec fn is_step(config: GameConfig, prev: Stamp, next: Stamp) -> bool {
    &&& prev.offset < next.offset <= prev.offset + config.offset_max_step
    &&& {
        ||| next.score == prev.score
        ||| next.score.home == prev.score.home + 1 && next.score.away == prev.score.away
        ||| next.score.home == prev.score.home && next.score.away == prev.score.away + 1
    }
    &&& config.score_changed.is_never() ==> next.score == prev.score
    &&& config.score_changed.is_certain() ==> next.score != prev.score
    &&& config.score_changed.is_certain() && config.home_score.is_certain()
        ==> next.score.home == prev.score.home + 1
    &&& config.score_changed.is_certain() && config.home_score.is_never()
        ==> next.score.away == prev.score.away + 1
}

/// Relies on `rand::Rng::gen_ratio` on `rand::thread_rng()`: `true` with
/// chance numerator/denominator. Its documentation guarantees `false` for a
/// numerator of 0 and `true` for numerator == denominator; it panics when the
/// denominator is 0 or below the numerator, and `thread_rng` panics only if
/// the operating system cannot seed it.
#[verifier::external_body]
fn draw_ratio(numerator: u32, denominator: u32) -> (r: bool)
    requires
        0 < denominator,
        numerator <= denominator,
    ensures
        numerator == 0 ==> !r,
        numerator == denominator ==> r,
{
    rand::thread_rng().gen_ratio(numerator, denominator)
}

/// Relies on `rand::Rng::gen_range` on `rand::thread_rng()` with the range
/// `1..=max`: a value within the range; it panics on an empty range, and
/// `thread_rng` panics only if the operating system cannot seed it.
#[verifier::external_body]
fn draw_offset_change(max: i32) -> (r: i32)
    requires
        1 <= max,
    ensures
        1 <= r <= max,
{
    rand::thread_rng().gen_range(1..=max)
}

/// The stamp after `previous` given the draws of one step: the offset
/// advances by `offset_change`; the home counter rises by one when the score
/// changed in favour of the home side, the away counter when it changed in
/// favour of the away side.
pub fn next_stamp(previous: Stamp, draw: StepDraw) -> (r: Stamp)
    requires
        i32::MIN <= previous.offset + draw.offset_change <= i32::MAX,
        draw.score_changed && draw.home_score ==> previous.score.home < i32::MAX,
        draw.score_changed && !draw.home_score ==> previous.score.away < i32::MAX,
    ensures
        follows(previous, draw, r),
{
    let home_change: i32 = if draw.score_changed && draw.home_score { 1 } else { 0 };
    let away_change: i32 = if draw.score_changed && !draw.home_score { 1 } else { 0 };
    Stamp {
        offset: previous.offset + draw.offset_change,
        score: Score {
            home: previous.score.home + home_change,
            away: previous.score.away + away_change,
        },
    }
}

/// Draws one step under `config` and returns the stamp that follows
/// `previous`.
pub fn generate_stamp(previous: Stamp, config: &GameConfig) -> (r: Stamp)
    requires
        config.is_valid(),
        previous.offset + config.offset_max_step <= i32::MAX,
        previous.score.home < i32::MAX,
        previous.score.away < i32::MAX,
    ensures
        is_step(*config, previous, r),
{
    let score_changed = draw_ratio(config.score_changed.numerator, config.score_changed.denominator);
    let home_score = draw_ratio(config.home_score.numerator, config.home_score.denominator);
    let offset_change = draw_offset_change(config.offset_max_step);
    next_stamp(previous, StepDraw { score_changed, home_score, offset_change })
}

/// A game of `step_count` steps under `config`: the initial stamp followed by
/// one stamp per step. The offsets of all steps together must fit in `i32`.
pub fn generate(step_count: usize, config: &GameConfig) -> (r: Vec<Stamp>)
    requires
        config.is_valid(),
        step_count * config.offset_max_step <= i32::MAX,
    ensures
        r@.len() == step_count + 1,
        is_initial(r@[0]),
        forall|i: int| 0 <= i < step_count ==> #[trigger] is_step(*config, r@[i], r@[i + 1]),
        offsets_ascending(r@),
        scores_nondecreasing(r@),
        one_side_per_step(r@),
        scores_nonnegative(r@),
{
    let mut current = initial_stamp();
    let mut stamps: Vec<Stamp> = Vec::new();
    stamps.push(current);
    let mut i: usize = 0;
    while i < step_count
        invariant
            config.is_valid(),
            step_count * config.offset_max_step <= i32::MAX,
            i <= step_count,
            stamps@.len() == i + 1,
            stamps@[i as int] == current,
            is_initial(stamps@[0]),
            0 <= current.offset <= i * config.offset_max_step,
            0 <= current.score.home <= i,
            0 <= current.score.away <= i,
            scores_nonnegative(stamps@),
            forall|j: int| 0 <= j < i ==> #[trigger] is_step(*config, stamps@[j], stamps@[j + 1]),
        decreases step_count - i,
    {
        assert(i * config.offset_max_step + config.offset_max_step <= step_count * config.offset_max_step) by (nonlinear_arith)
            requires
                i + 1 <= step_count,
                1 <= config.offset_max_step,
        ;
        assert(i < i32::MAX) by (nonlinear_arith)
            requires
                i + 1 <= step_count,
                1 <= config.offset_max_step,
                step_count * config.offset_max_step <= i32::MAX,
        ;
        let ghost before = current;
        current = generate_stamp(current, config);
        stamps.push(current);
        assert(current.offset <= (i + 1) * config.offset_max_step) by (nonlinear_arith)
            requires
                current.offset <= before.offset + config.offset_max_step,
                before.offset <= i * config.offset_max_step,
        ;
        i = i + 1;
    }
    let ghost s = stamps@;
    assert forall|j: int| 0 <= j < s.len() - 1 implies #[trigger] s[j].offset < s[j + 1].offset by {
        assert(is_step(*config, s[j], s[j + 1]));
    }
    assert forall|j: int| 0 <= j < s.len() - 1 implies #[trigger] s[j].score.home <= s[j + 1].score.home
        && s[j].score.away <= s[j + 1].score.away by {
        assert(is_step(*config, s[j], s[j + 1]));
    }
    assert forall|j: int| 0 <= j < s.len() - 1 implies !(#[trigger] s[j].score.home < s[j + 1].score.home
        && s[j].score.away < s[j + 1].score.away) by {
        assert(is_step(*config, s[j], s[j + 1]));
    }
    stamps
}

/// Why a game could not be generated.
#[derive(Debug, Clone, Copy, PartialEq, Eq, Structural)]
pub enum ConfigError {
    /// The chance of a score change is not a ratio in [0, 1].
    InvalidScoreChanged,
    /// The chance of a home goal is not a ratio in [0, 1].
    InvalidHomeScore,
    /// The largest offset advance is below 1.
    InvalidOffsetMaxStep,
    /// The offsets of so many steps may not fit in `i32`.
    TooManySteps,
}

/// The first problem with generating `step_count` steps under `config`, in
/// the order the fields are checked, or `None` when there is none.
pub open spec fn config_error(step_count: int, config: GameConfig) -> Option<ConfigError> {
    if !config.score_changed.is_valid() {
        Some(ConfigError::InvalidScoreChanged)
    } else if !config.home_score.is_valid() {
        Some(ConfigError::InvalidHomeScore)
    } else if config.offset_max_step < 1 {
        Some(ConfigError::InvalidOffsetMaxStep)
    } else if step_count * config.offset_max_step > i32::MAX {
        Some(ConfigError::TooManySteps)
    } else {
        None
    }
}

/// Checks `config` and the number of steps before any generation starts.
pub fn check_config(step_count: usize, config: &GameConfig) -> (r: Result<(), ConfigError>)
    ensures
        r is Ok <==> config_error(step_count as int, *config) is None,
        r is Err ==> config_error(step_count as int, *config) == Some(r->Err_0),
{
    if !(0 < config.score_changed.denominator && config.score_changed.numerator <= config.score_changed.denominator) {
        return Err(ConfigError::InvalidScoreChanged);
    }
    if !(0 < config.home_score.denominator && config.home_score.numerator <= config.home_score.denominator) {
        return Err(ConfigError::InvalidHomeScore);
    }
    if config.offset_max_step < 1 {
        return Err(ConfigError::InvalidOffsetMaxStep);
    }
    match step_count.checked_mul(config.offset_max_step as usize) {
        Some(total) => {
            if total > i32::MAX as usize {
                Err(ConfigError::TooManySteps)
            } else {
                Ok(())
            }
        },
        None => {
            assert(step_count * config.offset_max_step > i32::MAX);
            Err(ConfigError::TooManySteps)
        },
    }
}

/// Like `generate`, but first checks `config` and the number of steps and
/// reports the first problem instead of generating.
pub fn try_generate(step_count: usize, config: &GameConfig) -> (r: Result<Vec<Stamp>, ConfigError>)
    ensures
        r is Err <==> config_error(step_count as int, *config) is Some,
        r is Err ==> config_error(step_count as int, *config) == Some(r->Err_0),
        r is Ok ==> {
            let s = r->Ok_0@;
            &&& s.len() == step_count + 1
            &&& is_initial(s[0])
            &&& forall|i: int| 0 <= i < step_count ==> #[trigger] is_step(*config, s[i], s[i + 1])
            &&& offsets_ascending(s)
            &&& scores_nondecreasing(s)
            &&& one_side_per_step(s)
            &&& scores_nonnegative(s)
        },
{
    match check_config(step_count, config) {
        Ok(()) => Ok(generate(step_count, config)),
        Err(e) => Err(e),
    }
}

/// A standard game: `TIMESTAMPS_COUNT` steps under `GameConfig::standard()`.
pub fn generate_game() -> (r: Vec<Stamp>)
    ensures
        r@.len() == TIMESTAMPS_COUNT + 1,
        is_initial(r@[0]),
        forall|i: int| 0 <= i < TIMESTAMPS_COUNT ==> #[trigger] is_step(GameConfig::standard_spec(), r@[i], r@[i + 1]),
        offsets_ascending(r@),
        scores_nondecreasing(r@),
        one_side_per_step(r@),
        scores_nonnegative(r@),
{
    let config = GameConfig::standard();
    generate(TIMESTAMPS_COUNT, &config)
}

} // verus!
