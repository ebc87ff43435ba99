//! The arithmetic of reputation scores.
//!
//! Scores and shares are in basis points, from 0 to 10 000.
use crate::profile::{BadgeTier, DEFAULT_SCORE_BPS};
use vstd::prelude::*;

verus! {

/// The whole, in basis points.
pub const SCORE_SCALE: i128 = 10_000;

/// The best rating that a review can give.
pub const MAX_RATING: i128 = 5;

/// What is left of a score after each day without a review, in basis points.
pub const REVIEW_DECAY_BPS_PER_DAY: i32 = 9_950;

/// The seconds of a day.
pub const SECONDS_PER_DAY: u64 = 86_400;

/// Why a computation is refused.
#[derive(Copy, Clone, Debug, PartialEq, Eq, Structural)]
pub enum ReputationError {
    /// The review points are more than can be counted.
    ContractStateError,
}

/// The score nearest to a number.
pub open spec fn clamped(value: int) -> int {
    if value < 0 {
        0
    } else if value > SCORE_SCALE {
        SCORE_SCALE as int
    } else {
        value
    }
}

/// The average rating of reviews, as a share of the best rating; the default score while
/// there are none.
pub open spec fn average(total_points: int, reviews: nat) -> int {
    if reviews == 0 {
        DEFAULT_SCORE_BPS as int
    } else {
        clamped(total_points * SCORE_SCALE / (reviews * MAX_RATING))
    }
}

/// What is left of a score after a number of days without a review. What a day leaves is
/// rounded down.
pub open spec fn decayed(score: int, days: nat) -> int
    decreases days,
{
    if days == 0 {
        score
    } else {
        decayed(score * REVIEW_DECAY_BPS_PER_DAY / (SCORE_SCALE as int), (days - 1) as nat)
    }
}

/// A quotient, rounded toward zero.
pub open spec fn quotient_toward_zero(dividend: int, divisor: int) -> int {
    if dividend >= 0 {
        dividend / divisor
    } else {
        -(-dividend / divisor)
    }
}

/// The number of an `i32` that is nearest to a number.
pub open spec fn saturated(value: int) -> int {
    if value < i32::MIN {
        i32::MIN as int
    } else if value > i32::MAX {
        i32::MAX as int
    } else {
        value
    }
}

/// A score moved toward the default score by a share of the distance. The move is kept in
/// 32 bits.
pub open spec fn recovered(score: int, recovery_bps: int) -> int {
    let gap = saturated(DEFAULT_SCORE_BPS - score);
    clamped(score + (quotient_toward_zero(gap * recovery_bps, SCORE_SCALE as int) as i32))
}

/// The score and the completed jobs from which on a tier is reached.
pub open spec fn tier_reached(tier: BadgeTier, score: int, completed_jobs: nat) -> bool {
    match tier {
        BadgeTier::Bronze => score >= 6_000 && completed_jobs >= 5,
        BadgeTier::Silver => score >= 7_500 && completed_jobs >= 15,
        BadgeTier::Gold => score >= 9_000 && completed_jobs >= 30,
        BadgeTier::Platinum => score >= 9_500 && completed_jobs >= 50,
    }
}

/// The highest tier that a score and a number of completed jobs reach.
pub open spec fn highest_tier(score: int, completed_jobs: nat) -> Option<BadgeTier> {
    if tier_reached(BadgeTier::Platinum, score, completed_jobs) {
        Some(BadgeTier::Platinum)
    } else if tier_reached(BadgeTier::Gold, score, completed_jobs) {
        Some(BadgeTier::Gold)
    } else if tier_reached(BadgeTier::Silver, score, completed_jobs) {
        Some(BadgeTier::Silver)
    } else if tier_reached(BadgeTier::Bronze, score, completed_jobs) {
        Some(BadgeTier::Bronze)
    } else {
        None
    }
}

/// The reputation contract's arithmetic.
pub struct ReputationContract;

impl ReputationContract {
    /// The score nearest to a number.
    pub fn clamp_score(value: i32) -> (score: i32)
        ensures
            score == clamped(value as int),
    {
        if value < 0 {
            0
        } else if value > 10_000 {
            10_000
        } else {
            value
        }
    }

    /// The score nearest to a number.
    pub fn clamp_score_i128(value: i128) -> (score: i32)
        ensures
            score == clamped(value as int),
    {
        if value < 0 {
            0
        } else if value > SCORE_SCALE {
            10_000
        } else {
            value as i32
        }
    }

    /// The sum of all review points.
    pub fn checked_add_points(current: i128, incoming: u32) -> (result: Result<
        i128,
        ReputationError,
    >)
        ensures
            result == (if current + incoming <= i128::MAX {
                Ok((current + incoming) as i128)
            } else {
                Err(ReputationError::ContractStateError)
            }),
    {
        match current.checked_add(incoming as i128) {
            Some(total) => Ok(total),
            None => Err(ReputationError::ContractStateError),
        }
    }

    /// The average rating of reviews, as a share of the best rating.
    pub fn average_rating_bps(total_points: i128, reviews: u32) -> (result: Result<
        i32,
        ReputationError,
    >)
        ensures
            if reviews > 0 && !(i128::MIN <= total_points * SCORE_SCALE <= i128::MAX) {
                result == Err::<i32, ReputationError>(ReputationError::ContractStateError)
            } else {
                result matches Ok(rating) && rating == average(total_points as int, reviews as nat)
            },
    {
        if reviews == 0 {
            return Ok(DEFAULT_SCORE_BPS);
        }
        let numerator = match total_points.checked_mul(SCORE_SCALE) {
            Some(n) => n,
            None => {
                return Err(ReputationError::ContractStateError);
            },
        };
        let denominator = reviews as i128 * MAX_RATING;
        let quotient = numerator / denominator;
        assert(numerator < 0 ==> numerator as int / denominator as int <= 0) by (nonlinear_arith)
            requires
                denominator > 0,
        ;
        Ok(Self::clamp_score_i128(quotient))
    }

    /// The share of a score that a penalty leaves.
    pub fn apply_decay_bps(score: i32, decay_bps: i32) -> (left: i32)
        ensures
            left == clamped(score * decay_bps / (SCORE_SCALE as int)),
    {
        assert(-0x8000_0000 * 0x8000_0000 <= score * decay_bps <= 0x8000_0000 * 0x8000_0000)
            by (nonlinear_arith)
            requires
                -0x8000_0000 <= score < 0x8000_0000,
                -0x8000_0000 <= decay_bps < 0x8000_0000,
        ;
        let product = score as i128 * decay_bps as i128;
        Self::clamp_score_i128(product / SCORE_SCALE)
    }

    /// The number of an `i32` that is nearest to a number.
    fn saturate(value: i64) -> (nearest: i32)
        ensures
            nearest == saturated(value as int),
    {
        if value < i32::MIN as i64 {
            i32::MIN
        } else if value > i32::MAX as i64 {
            i32::MAX
        } else {
            value as i32
        }
    }

    /// A score moved toward the default score by a share of the distance.
    pub fn compute_recovery_towards_default(score: i32, recovery_bps: i32) -> (moved: i32)
        ensures
            moved == recovered(score as int, recovery_bps as int),
    {
        let gap = Self::saturate(DEFAULT_SCORE_BPS as i64 - score as i64);
        assert(-0x8000_0000 * 0x8000_0000 <= gap * recovery_bps <= 0x8000_0000 * 0x8000_0000)
            by (nonlinear_arith)
            requires
                -0x8000_0000 <= gap < 0x8000_0000,
                -0x8000_0000 <= recovery_bps < 0x8000_0000,
        ;
        let step = gap as i128 * recovery_bps as i128 / SCORE_SCALE;
        assert(step == quotient_toward_zero(gap * recovery_bps, SCORE_SCALE as int));
        let kept = #[verifier::truncate] (step as i32);
        Self::clamp_score(Self::saturate(score as i64 + kept as i64))
    }

    /// The highest tier that a score and a number of completed jobs reach: bronze from
    /// 6 000 and 5 jobs on, silver from 7 500 and 15, gold from 9 000 and 30, platinum from
    /// 9 500 and 50.
    pub fn calculate_badge_tier(score: i32, completed_jobs: u32) -> (tier: Option<BadgeTier>)
        ensures
            tier == highest_tier(score as int, completed_jobs as nat),
    {
        if score >= 9_500 && completed_jobs >= 50 {
            Some(BadgeTier::Platinum)
        } else if score >= 9_000 && completed_jobs >= 30 {
            Some(BadgeTier::Gold)
        } else if score >= 7_500 && completed_jobs >= 15 {
            Some(BadgeTier::Silver)
        } else if score >= 6_000 && completed_jobs >= 5 {
            Some(BadgeTier::Bronze)
        } else {
            None
        }
    }

    /// What time without a review leaves of a score: nothing is lost before the first full
    /// day is over.
    pub fn apply_exponential_decay_bps(score: i32, since: u64, now: u64) -> (left: i32)
        ensures
            left == clamped(
                if score > 0 && now > since {
                    decayed(score as int, ((now - since) / SECONDS_PER_DAY as int) as nat)
                } else {
                    score as int
                },
            ),
    {
        if score <= 0 {
            return Self::clamp_score(score);
        }
        if now <= since {
            return Self::clamp_score(score);
        }
        let elapsed_days = (now - since) / SECONDS_PER_DAY;
        if elapsed_days == 0 {
            return Self::clamp_score(score);
        }
        let mut value: i128 = score as i128;
        let mut days: u64 = elapsed_days;
        while days > 0
            invariant_except_break
                0 <= value <= i32::MAX,
                decayed(value as int, days as nat) == decayed(score as int, elapsed_days as nat),
            ensures
                value == decayed(score as int, elapsed_days as nat),
            decreases days,
        {
            value = value * REVIEW_DECAY_BPS_PER_DAY as i128 / SCORE_SCALE;
            if value == 0 {
                proof {
                    lemma_nothing_decays_to_nothing((days - 1) as nat);
                }
                break;
            }
            days -= 1;
        }
        Self::clamp_score_i128(value)
    }
}

/// Where nothing is left, nothing more is lost.
proof fn lemma_nothing_decays_to_nothing(days: nat)
    ensures
        decayed(0, days) == 0,
    decreases days,
{
    if days > 0 {
        lemma_nothing_decays_to_nothing((days - 1) as nat);
    }
}

/// Each score that the arithmetic gives is between 0 and 10 000.
pub proof fn law_scores_stay_in_range(value: int)
    ensures
        0 <= clamped(value) <= 10_000,
        0 <= value <= 10_000 ==> clamped(value) == value,
{
}

/// When every review gives the same rating, from one to the best one, the average is that
/// rating's share of the best, however many reviews there are.
pub proof fn law_average_of_equal_ratings(rating: int, reviews: nat)
    requires
        1 <= rating <= MAX_RATING,
        reviews > 0,
    ensures
        average(rating * reviews, reviews) == rating * 2_000,
{
    assert(rating * reviews * 10_000 / (reviews as int * 5) == rating * 2_000) by (nonlinear_arith)
        requires
            reviews > 0,
    ;
}

/// A penalty that leaves a share of at most the whole never raises a score, and one that
/// leaves the whole keeps it.
pub proof fn law_penalty_never_raises_a_score(score: i32, decay_bps: i32)
    requires
        0 <= score <= 10_000,
        0 <= decay_bps <= 10_000,
    ensures
        0 <= clamped(score * decay_bps / (SCORE_SCALE as int)) <= score,
        clamped(score * 10_000 / (SCORE_SCALE as int)) == score,
{
    assert(0 <= score * decay_bps <= score * 10_000) by (nonlinear_arith)
        requires
            0 <= score,
            0 <= decay_bps <= 10_000,
    ;
}

/// Time only takes away from a score, and more time takes away at least as much.
pub proof fn law_decay_never_raises_a_score(score: int, days: nat, more: nat)
    requires
        0 <= score,
    ensures
        0 <= decayed(score, days + more) <= decayed(score, days) <= score,
    decreases days + more,
{
    if days > 0 {
        let next = score * REVIEW_DECAY_BPS_PER_DAY / (SCORE_SCALE as int);
        law_decay_never_raises_a_score(next, (days - 1) as nat, more);
        assert((days - 1) as nat + more == (days + more - 1) as nat);
    } else if more > 0 {
        let next = score * REVIEW_DECAY_BPS_PER_DAY / (SCORE_SCALE as int);
        law_decay_never_raises_a_score(next, 0, (more - 1) as nat);
    }
}

/// The better of two scores stays the better one, or they become equal.
pub proof fn law_decay_keeps_the_order(low: int, high: int, days: nat)
    requires
        0 <= low <= high,
    ensures
        decayed(low, days) <= decayed(high, days),
    decreases days,
{
    if days > 0 {
        law_decay_keeps_the_order(
            low * REVIEW_DECAY_BPS_PER_DAY / (SCORE_SCALE as int),
            high * REVIEW_DECAY_BPS_PER_DAY / (SCORE_SCALE as int),
            (days - 1) as nat,
        );
    }
}

/// A recovery by a share of at most the whole moves a score toward the default score and
/// not past it; a recovery by the whole reaches it.
pub proof fn law_recovery_moves_toward_the_default(score: int, recovery_bps: int)
    requires
        0 <= score <= 10_000,
        0 <= recovery_bps <= 10_000,
    ensures
        score <= DEFAULT_SCORE_BPS ==> score <= recovered(score, recovery_bps)
            <= DEFAULT_SCORE_BPS,
        score >= DEFAULT_SCORE_BPS ==> DEFAULT_SCORE_BPS <= recovered(score, recovery_bps)
            <= score,
        recovered(score, 10_000) == DEFAULT_SCORE_BPS,
{
    let gap = DEFAULT_SCORE_BPS - score;
    assert(gap >= 0 ==> 0 <= gap * recovery_bps <= gap * 10_000) by (nonlinear_arith)
        requires
            0 <= recovery_bps <= 10_000,
    ;
    assert(gap <= 0 ==> gap * 10_000 <= gap * recovery_bps <= 0) by (nonlinear_arith)
        requires
            0 <= recovery_bps <= 10_000,
    ;
}

/// The tier given is reached, and none above it is; where none is given, none is reached.
pub proof fn law_tier_is_the_highest_reached(score: int, completed_jobs: nat, tier: BadgeTier)
    ensures
        highest_tier(score, completed_jobs) matches Some(given) ==> tier_reached(
            given,
            score,
            completed_jobs,
        ),
        tier_reached(tier, score, completed_jobs) ==> {
            &&& highest_tier(score, completed_jobs) matches Some(given)
            &&& tier.number() <= given.number()
        },
{
}

/// A better score and more completed jobs never lead to a lower tier.
pub proof fn law_tiers_rise_with_score_and_jobs(
    score: int,
    completed_jobs: nat,
    better: int,
    more: nat,
)
    requires
        score <= better,
        completed_jobs <= more,
    ensures
        highest_tier(score, completed_jobs) matches Some(tier) ==> {
            &&& highest_tier(better, more) matches Some(risen)
            &&& tier.number() <= risen.number()
        },
{
}

/// A clamped number is the score that is nearest to it: no score is nearer.
pub proof fn law_clamping_gives_the_nearest_score(
    value: i32,
    score: i32,
    wide: i128,
    wide_score: i32,
    other: int,
)
    requires
        call_ensures(ReputationContract::clamp_score, (value,), score),
        call_ensures(ReputationContract::clamp_score_i128, (wide,), wide_score),
        0 <= other <= 10_000,
    ensures
        0 <= score <= 10_000,
        value < score ==> score - value <= other - value,
        score < value ==> value - score <= value - other,
        0 <= value <= 10_000 ==> score == value,
        0 <= wide_score <= 10_000,
        wide < wide_score ==> wide_score - wide <= other - wide,
        wide_score < wide ==> wide - wide_score <= wide - other,
        0 <= wide <= 10_000 ==> wide_score == wide,
{
}

/// Points add up exactly, and are refused only where the sum is past what can be counted.
pub proof fn law_points_add_up(
    current: i128,
    incoming: u32,
    result: Result<i128, ReputationError>,
)
    requires
        call_ensures(ReputationContract::checked_add_points, (current, incoming), result),
    ensures
        result is Ok <==> current + incoming <= i128::MAX,
        result matches Ok(total) ==> total - current == incoming,
        result matches Err(e) ==> e == ReputationError::ContractStateError,
{
}

/// The average rating is the share of the points received in the points that the best
/// ratings would have given, rounded down: all of it from there on, nothing for points
/// below zero, and the default score without reviews. It is refused only where the points
/// are past what can be scaled.
pub proof fn law_average_is_the_share_of_the_best_ratings(
    total_points: i128,
    reviews: u32,
    result: Result<i32, ReputationError>,
)
    requires
        call_ensures(ReputationContract::average_rating_bps, (total_points, reviews), result),
    ensures
        result is Err <==> reviews > 0 && !(i128::MIN <= total_points * 10_000 <= i128::MAX),
        result matches Err(e) ==> e == ReputationError::ContractStateError,
        reviews == 0 ==> result == Ok::<i32, ReputationError>(5_000),
        result matches Ok(rating) ==> {
            &&& reviews > 0 && total_points < 0 ==> rating == 0
            &&& reviews > 0 && total_points >= 5 * reviews ==> rating == 10_000
            &&& reviews > 0 && 0 <= total_points < 5 * reviews ==> rating * (5 * reviews)
                <= total_points * 10_000 < (rating + 1) * (5 * reviews)
        },
{
    if reviews > 0 {
        let best = 5 * reviews;
        let scaled = total_points * 10_000;
        let share = scaled / best;
        assert(share * best <= scaled < (share + 1) * best) by (nonlinear_arith)
            requires
                share == scaled / best,
                best > 0,
        ;
        assert(total_points < 0 ==> share < 0) by (nonlinear_arith)
            requires
                share * best <= scaled,
                scaled == total_points * 10_000,
                best > 0,
        ;
        assert(total_points >= best ==> share >= 10_000) by (nonlinear_arith)
            requires
                scaled < (share + 1) * best,
                scaled == total_points * 10_000,
                best > 0,
        ;
        assert(0 <= total_points < best ==> 0 <= share < 10_000) by (nonlinear_arith)
            requires
                share * best <= scaled < (share + 1) * best,
                scaled == total_points * 10_000,
                best > 0,
        ;
    }
}

/// A penalty leaves the share that it names of a score, rounded down and clamped: with a
/// product of score and share that is not negative, a whole point less would be too little
/// and a whole point more too much, and the best score is the most.
pub proof fn law_penalty_leaves_the_share_it_names(score: i32, decay_bps: i32, left: i32)
    requires
        call_ensures(ReputationContract::apply_decay_bps, (score, decay_bps), left),
    ensures
        score * decay_bps < 0 ==> left == 0,
        0 <= score * decay_bps < 100_000_000 ==> left * 10_000 <= score * decay_bps < (left + 1)
            * 10_000,
        score * decay_bps >= 100_000_000 ==> left == 10_000,
{
}

/// Days come one after the other: the last one works on what those before it left.
proof fn lemma_last_day(score: int, days: nat)
    ensures
        decayed(score, days + 1) == decayed(decayed(score, days), 1),
    decreases days,
{
    reveal_with_fuel(decayed, 2);
    if days > 0 {
        lemma_last_day(decayed(score, 1), (days - 1) as nat);
        assert(decayed(score, days + 1) == decayed(decayed(score, 1), days));
        assert(decayed(score, days) == decayed(decayed(score, 1), (days - 1) as nat));
    }
}

/// What a day takes is a share of what is left: each day leaves 9 950 of 10 000 parts,
/// rounded down, and before the first day the score is whole.
pub proof fn law_day_leaves_a_share_of_what_is_left(score: int, days: nat)
    requires
        0 <= score,
    ensures
        decayed(score, 0) == score,
        10_000 * decayed(score, days + 1) <= 9_950 * decayed(score, days) < 10_000 * (decayed(
            score,
            days + 1,
        ) + 1),
{
    lemma_last_day(score, days);
    reveal_with_fuel(decayed, 2);
    law_decay_never_raises_a_score(score, days, 0);
}

/// A score falls to zero only from one: of more than one, a day always leaves something.
pub proof fn law_decay_reaches_zero_only_from_one(score: int, days: nat)
    requires
        0 <= score,
        decayed(score, days + 1) == 0,
    ensures
        decayed(score, days) <= 1,
{
    law_day_leaves_a_share_of_what_is_left(score, days);
}

/// Time works on a score by the full days since the last review. Before the first full day
/// is over, and before the review, a score is whole; between two full days nothing is
/// lost; and one day more leaves 9 950 of 10 000 parts of what was left, rounded down. A
/// score that is not above zero counts as zero.
pub proof fn law_time_takes_a_share_each_full_day(
    score: i32,
    since: u64,
    now: u64,
    left: i32,
    soon: u64,
    left_soon: i32,
    next_day: u64,
    left_next_day: i32,
)
    requires
        call_ensures(
            ReputationContract::apply_exponential_decay_bps,
            (score, since, now),
            left,
        ),
        call_ensures(
            ReputationContract::apply_exponential_decay_bps,
            (score, since, soon),
            left_soon,
        ),
        call_ensures(
            ReputationContract::apply_exponential_decay_bps,
            (score, since, next_day),
            left_next_day,
        ),
        score <= 10_000,
        now <= soon,
        next_day == now + 86_400,
    ensures
        score <= 0 ==> left == 0,
        score > 0 && now < since + 86_400 ==> left == score,
        now >= since && (now - since) % 86_400 == 0 && soon - now < 86_400 ==> left_soon == left,
        now >= since ==> 10_000 * left_next_day <= 9_950 * left < 10_000 * (left_next_day + 1),
{
    if score > 0 && now >= since {
        let days = ((now - since) / 86_400) as nat;
        law_day_leaves_a_share_of_what_is_left(score as int, days);
        law_decay_never_raises_a_score(score as int, days, 1);
        assert((next_day - since) / 86_400 == days + 1);
        if (now - since) % 86_400 == 0 && soon - now < 86_400 {
            assert((soon - since) / 86_400 == days);
        }
    }
}

/// A score above the best one decays from where it is, and what is left of it counts as
/// the best score while it is above that.
pub proof fn law_time_works_on_scores_of_any_size(score: i32, since: u64, now: u64, left: i32)
    requires
        call_ensures(
            ReputationContract::apply_exponential_decay_bps,
            (score, since, now),
            left,
        ),
        score > 0,
        now >= since,
    ensures
        ({
            let whole = decayed(score as int, ((now - since) / 86_400) as nat);
            &&& whole <= 10_000 ==> left == whole
            &&& whole > 10_000 ==> left == 10_000
        }),
{
    law_decay_never_raises_a_score(score as int, ((now - since) / 86_400) as nat, 0);
}

/// A recovery moves a score by the share that it names of the distance to 5 000, rounded
/// toward zero: of the move, a whole point more would be too much. The distance and the
/// move are kept in 32 bits, and the sum is clamped.
pub proof fn law_recovery_moves_by_the_share_it_names(
    score: i32,
    recovery_bps: i32,
    moved: i32,
    gap: int,
    step: int,
)
    requires
        call_ensures(
            ReputationContract::compute_recovery_towards_default,
            (score, recovery_bps),
            moved,
        ),
        5_000 - score <= i32::MAX ==> gap == 5_000 - score,
        5_000 - score > i32::MAX ==> gap == i32::MAX,
        gap * recovery_bps >= 0 ==> step * 10_000 <= gap * recovery_bps < (step + 1) * 10_000,
        gap * recovery_bps < 0 ==> (step - 1) * 10_000 < gap * recovery_bps <= step * 10_000,
    ensures
        score + (step as i32) < 0 ==> moved == 0,
        0 <= score + (step as i32) <= 10_000 ==> moved == score + (step as i32),
        score + (step as i32) > 10_000 ==> moved == 10_000,
        i32::MIN <= step <= i32::MAX ==> (step as i32) == step,
{
    assert(gap == saturated(5_000 - score));
    assert(step == quotient_toward_zero(gap * recovery_bps, 10_000));
}

/// A recovery of a score moves it by the share that it names of the distance to 5 000, up
/// from below and down from above, and never by a whole point less than that share.
pub proof fn law_recovery_of_a_score_is_a_share_of_the_distance(
    score: i32,
    recovery_bps: i32,
    moved: i32,
)
    requires
        call_ensures(
            ReputationContract::compute_recovery_towards_default,
            (score, recovery_bps),
            moved,
        ),
        0 <= score <= 10_000,
        0 <= recovery_bps <= 10_000,
    ensures
        score <= 5_000 ==> (moved - score) * 10_000 <= (5_000 - score) * recovery_bps < (moved
            - score + 1) * 10_000,
        score >= 5_000 ==> (score - moved) * 10_000 <= (score - 5_000) * recovery_bps < (score
            - moved + 1) * 10_000,
{
    let gap = 5_000 - score;
    assert(gap >= 0 ==> 0 <= gap * recovery_bps <= gap * 10_000) by (nonlinear_arith)
        requires
            0 <= recovery_bps <= 10_000,
    ;
    assert(gap <= 0 ==> gap * 10_000 <= gap * recovery_bps <= 0) by (nonlinear_arith)
        requires
            0 <= recovery_bps <= 10_000,
    ;
    assert((score - 5_000) * recovery_bps == -(gap * recovery_bps)) by (nonlinear_arith)
        requires
            gap == 5_000 - score,
    ;
}

/// A tier is reached from its score and its completed jobs on: the one given is at least
/// bronze from 6 000 and 5 jobs, silver from 7 500 and 15, gold from 9 000 and 30, platinum
/// from 9 500 and 50, and none is given below bronze.
pub proof fn law_tiers_start_at_score_and_jobs(
    score: i32,
    completed_jobs: u32,
    tier: Option<BadgeTier>,
)
    requires
        call_ensures(ReputationContract::calculate_badge_tier, (score, completed_jobs), tier),
    ensures
        tier is Some <==> score >= 6_000 && completed_jobs >= 5,
        tier == Some(BadgeTier::Silver) || tier == Some(BadgeTier::Gold) || tier == Some(
            BadgeTier::Platinum,
        ) <==> score >= 7_500 && completed_jobs >= 15,
        tier == Some(BadgeTier::Gold) || tier == Some(BadgeTier::Platinum) <==> score >= 9_000
            && completed_jobs >= 30,
        tier == Some(BadgeTier::Platinum) <==> score >= 9_500 && completed_jobs >= 50,
{
}

} // verus!
