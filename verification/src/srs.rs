//! The spaced-repetition scheduler.
//!
//! Given a card's memory-strength state and the outcome of one timed review,
//! the scheduler grades the review on a 0/3/4/5 quality scale, shifts the
//! card's ease factor, advances or resets the repetition count, computes the
//! next review interval, optionally compresses that interval to fit an
//! approaching deadline, and turns it into an absolute due date.
//!
//! Quantities are fixed-point integers: ease factors in hundredths (an ease
//! of 2.50 is `250`), intervals in hundredths of a day (one day is `100`),
//! and speed ratios in thousandths (on-the-nose timing is `1000`).

use vstd::prelude::*;

use crate::dates::{
    CivilDate, EPOCH_DAYS_FROM_CE, MAX_TIMESTAMP_MS, MS_PER_DAY, date_of_str, days_from_ce,
    days_from_ce_of, format_utc_timestamp, iso_utc_of, parse_date, valid_date_str,
};

verus! {

/// Floor for the ease factor, in hundredths: no card's ease ever drops below
/// 1.30.
pub const MIN_EASE_CENTI: u64 = 130;

/// Ease factor of a brand-new card, in hundredths (2.50).
pub const INITIAL_EASE_CENTI: u64 = 250;

/// One day, in hundredths of a day.
pub const DAY_CENTI: u64 = 100;

/// A neutral speed ratio, in thousandths (1.0): the value assigned to
/// untimed reviews.
pub const NEUTRAL_SPEED_RATIO_MILLI: u64 = 1000;

/// Number of successful reviews after which a card is assumed mature, used
/// when compressing intervals toward a deadline.
pub const MATURITY_REVIEWS: u32 = 6;

/// A card's persisted memory-strength state, as the scheduler reads it.
#[derive(Clone, Debug)]
pub struct SrsCard {
    /// Ease factor in hundredths; at least [`MIN_EASE_CENTI`].
    pub ease_factor: u64,
    /// Days until the card is next due, in hundredths of a day.
    pub interval_days: u64,
    /// Consecutive correct reviews since the last lapse.
    pub repetitions: u32,
    /// Due date as an ISO-8601 timestamp; absent for brand-new cards.
    pub due_date: Option<String>,
}

/// The outcome of one timed review, as the caller hands it in.
#[derive(Clone, Debug)]
pub struct ReviewInput {
    /// Whether the learner answered correctly.
    pub correct: bool,
    /// Elapsed response time, in whole seconds.
    pub response_time_seconds: u64,
    /// The card's configured time budget in whole seconds; 0 means untimed.
    pub timer_limit_seconds: u64,
}

/// The scheduler's decision: the card's new state plus review metadata.
#[derive(Clone, Debug)]
pub struct SrsResult {
    /// Updated ease factor in hundredths; at least [`MIN_EASE_CENTI`].
    pub ease_factor: u64,
    /// Next review interval in hundredths of a day; at least [`DAY_CENTI`].
    pub interval_days: u64,
    /// Updated consecutive-correct count.
    pub repetitions: u32,
    /// Absolute due date, `YYYY-MM-DDTHH:MM:SS.sssZ`.
    pub due_date: String,
    /// Quality grade: 0, 3, 4 or 5.
    pub quality: i32,
    /// Response time over time budget, in thousandths.
    pub speed_ratio: u64,
}

/// How a review went, combining correctness with response speed relative to
/// the time budget.
#[derive(Clone, Copy, Debug, PartialEq, Eq, Structural)]
pub enum ReviewOutcome {
    /// Wrong answer.
    Incorrect,
    /// Correct within 60% of the budget, or faster.
    CorrectFast,
    /// Correct within the budget (also every untimed correct answer).
    CorrectNormal,
    /// Correct but over the budget.
    CorrectSlow,
}

impl SrsCard {
    /// State of a brand-new card: default ease, no interval, no repetitions,
    /// no due date.
    pub fn new() -> (card: SrsCard)
        ensures
            card.ease_factor == INITIAL_EASE_CENTI,
            card.interval_days == 0,
            card.repetitions == 0,
            card.due_date is None,
    {
        SrsCard {
            ease_factor: INITIAL_EASE_CENTI,
            interval_days: 0,
            repetitions: 0,
            due_date: None,
        }
    }
}

/// Outcome of a review: incorrect answers are graded alone; correct answers
/// split by speed ratio, with the 0.6 and 1.0 thresholds compared exactly as
/// rationals. An untimed review (budget 0) has speed ratio 1.0 by definition
/// and so counts as normal speed.
pub open spec fn outcome_spec(review: ReviewInput) -> ReviewOutcome {
    if !review.correct {
        ReviewOutcome::Incorrect
    } else if review.timer_limit_seconds > 0 && 5 * review.response_time_seconds <= 3
        * review.timer_limit_seconds {
        ReviewOutcome::CorrectFast
    } else if review.timer_limit_seconds == 0 || review.response_time_seconds
        <= review.timer_limit_seconds {
        ReviewOutcome::CorrectNormal
    } else {
        ReviewOutcome::CorrectSlow
    }
}

/// Quality grade of a review: 0 incorrect, 5 fast, 4 normal, 3 slow.
pub open spec fn quality_spec(review: ReviewInput) -> int {
    match outcome_spec(review) {
        ReviewOutcome::Incorrect => 0,
        ReviewOutcome::CorrectFast => 5,
        ReviewOutcome::CorrectNormal => 4,
        ReviewOutcome::CorrectSlow => 3,
    }
}

/// Speed ratio in thousandths: response time over budget, truncated, or
/// exactly 1.0 for untimed reviews.
pub open spec fn speed_ratio_milli_spec(review: ReviewInput) -> int {
    if review.timer_limit_seconds == 0 {
        NEUTRAL_SPEED_RATIO_MILLI as int
    } else {
        review.response_time_seconds * 1000 / review.timer_limit_seconds as int
    }
}

/// Clamps an ease factor to the floor.
pub open spec fn clamp_ease(e: int) -> int {
    if e < MIN_EASE_CENTI {
        MIN_EASE_CENTI as int
    } else {
        e
    }
}

/// Ease delta of each outcome, in hundredths: -0.20 incorrect, +0.15 fast,
/// +0.05 normal, -0.10 slow.
pub open spec fn ease_delta_centi(outcome: ReviewOutcome) -> int {
    match outcome {
        ReviewOutcome::Incorrect => -20,
        ReviewOutcome::CorrectFast => 15,
        ReviewOutcome::CorrectNormal => 5,
        ReviewOutcome::CorrectSlow => -10,
    }
}

/// Ease factor after a review: the outcome's delta, clamped to the floor.
pub open spec fn ease_after_spec(card: SrsCard, review: ReviewInput) -> int {
    clamp_ease(card.ease_factor + ease_delta_centi(outcome_spec(review)))
}

/// Repetition count after a review: reset on a lapse, else one more.
pub open spec fn reps_after_spec(card: SrsCard, review: ReviewInput) -> int {
    if review.correct {
        card.repetitions + 1
    } else {
        0
    }
}

/// Speed multiplier applied to interval growth, in tenths: fast answers
/// amplify growth by 30%, slow-but-correct answers dampen it by 20%.
pub open spec fn speed_multiplier_deci(outcome: ReviewOutcome) -> int {
    match outcome {
        ReviewOutcome::Incorrect => 10,
        ReviewOutcome::CorrectFast => 13,
        ReviewOutcome::CorrectNormal => 10,
        ReviewOutcome::CorrectSlow => 8,
    }
}

/// Interval progression on a correct review, in hundredths of a day: fixed
/// graduation steps of 1 day then 3 days, then multiplicative growth by ease
/// and speed multiplier, never below 1 day.
pub open spec fn next_interval_spec(reps: int, prev_interval: int, ease: int, mult_deci: int) -> int {
    if reps <= 1 {
        DAY_CENTI as int
    } else if reps == 2 {
        3 * DAY_CENTI as int
    } else {
        let grown = prev_interval * ease * mult_deci / 1000;
        if grown >= DAY_CENTI {
            grown
        } else {
            DAY_CENTI as int
        }
    }
}

/// The interval a review earns before any deadline compression.
pub open spec fn base_interval_spec(card: SrsCard, review: ReviewInput) -> int {
    if !review.correct {
        DAY_CENTI as int
    } else {
        next_interval_spec(
            reps_after_spec(card, review),
            card.interval_days as int,
            ease_after_spec(card, review),
            speed_multiplier_deci(outcome_spec(review)),
        )
    }
}

/// Classifies one review into its outcome bucket.
pub fn classify_review(review: &ReviewInput) -> (outcome: ReviewOutcome)
    ensures
        outcome == outcome_spec(*review),
{
    if !review.correct {
        ReviewOutcome::Incorrect
    } else if review.timer_limit_seconds > 0 && 5 * (review.response_time_seconds as u128) <= 3
        * (review.timer_limit_seconds as u128) {
        ReviewOutcome::CorrectFast
    } else if review.timer_limit_seconds == 0
        || review.response_time_seconds <= review.timer_limit_seconds {
        ReviewOutcome::CorrectNormal
    } else {
        ReviewOutcome::CorrectSlow
    }
}

/// Computes the speed ratio of a review, in thousandths.
pub fn speed_ratio_milli(review: &ReviewInput) -> (ratio: u64)
    requires
        review.response_time_seconds * 1000 <= u64::MAX,
    ensures
        ratio == speed_ratio_milli_spec(*review),
{
    if review.timer_limit_seconds == 0 {
        NEUTRAL_SPEED_RATIO_MILLI
    } else {
        review.response_time_seconds * 1000 / review.timer_limit_seconds
    }
}

/// Interval progression on a correct review. `reps` counts the review being
/// graded; `prev_interval` is in hundredths of a day, `ease` in hundredths,
/// `speed_multiplier_deci` in tenths.
pub fn next_interval(reps: u32, prev_interval: u64, ease: u64, speed_multiplier_deci: u64) -> (r:
    u64)
    requires
        1 <= speed_multiplier_deci,
        prev_interval * ease * speed_multiplier_deci <= u64::MAX,
    ensures
        r == next_interval_spec(
            reps as int,
            prev_interval as int,
            ease as int,
            speed_multiplier_deci as int,
        ),
{
    if reps <= 1 {
        DAY_CENTI
    } else if reps == 2 {
        3 * DAY_CENTI
    } else {
        proof {
            assert(prev_interval * ease >= 0) by (nonlinear_arith);
            assert(prev_interval * ease <= prev_interval * ease * speed_multiplier_deci)
                by (nonlinear_arith)
                requires
                    1 <= speed_multiplier_deci,
                    prev_interval * ease >= 0,
            ;
        }
        let grown = prev_interval * ease * speed_multiplier_deci / 1000;
        if grown >= DAY_CENTI {
            grown
        } else {
            DAY_CENTI
        }
    }
}

/// Midnight UTC of a calendar date, in epoch milliseconds, through chrono's
/// common-era day count.
pub open spec fn date_midnight_ms_spec(d: CivilDate) -> int {
    (days_from_ce_of(d.year, d.month, d.day) - EPOCH_DAYS_FROM_CE) * MS_PER_DAY
}

/// Whole days from `now_ms` until midnight of the deadline date, truncated
/// at day granularity.
pub open spec fn days_remaining_spec(d: CivilDate, now_ms: int) -> int {
    (date_midnight_ms_spec(d) - now_ms) / (MS_PER_DAY as int)
}

/// Reviews a card is assumed to still need before maturity: six minus the
/// repetitions already done, but at least one.
pub open spec fn reviews_still_needed_spec(reps_after: int) -> int {
    if MATURITY_REVIEWS - reps_after >= 1 {
        MATURITY_REVIEWS - reps_after
    } else {
        1
    }
}

/// Deadline compression: cap the interval at the per-review share of the
/// remaining days, but never push it below one day.
pub open spec fn compressed_interval_spec(base: int, days_remaining: int, reps_after: int) -> int {
    let max_interval = days_remaining * 100 / reviews_still_needed_spec(reps_after);
    let capped = if base <= max_interval {
        base
    } else {
        max_interval
    };
    if capped >= DAY_CENTI {
        capped
    } else {
        DAY_CENTI as int
    }
}

/// Whether a deadline string compresses the schedule now: it must be a valid
/// `YYYY-MM-DD` date lying at least one whole day in the future. Anything
/// else - malformed strings, impossible dates, past deadlines - is ignored.
pub open spec fn compression_applies(s: Seq<char>, now_ms: int) -> bool {
    valid_date_str(s) && days_remaining_spec(date_of_str(s), now_ms) >= 1
}

/// The deadline argument as the contracts see it.
pub open spec fn deadline_view(deadline: Option<&str>) -> Option<Seq<char>> {
    match deadline {
        Some(s) => Some(s@),
        None => None,
    }
}

/// How the deadline argument affected one scheduling round. Ignoring a bad
/// deadline is deliberate fail-open policy, and this names the reason
/// instead of leaving it silent.
#[derive(Clone, Copy, Debug, PartialEq, Eq, Structural)]
pub enum DeadlineDisposition {
    /// No deadline was supplied.
    Absent,
    /// The deadline is a valid date at least one whole day away; the whole
    /// days remaining (carried here) cap the interval.
    Applied(u64),
    /// The string does not name a valid `YYYY-MM-DD` calendar date, so it
    /// is ignored.
    IgnoredInvalid,
    /// The deadline is today or already past, so it is ignored.
    IgnoredNotFuture,
}

/// Disposition of a deadline at a given moment.
pub open spec fn deadline_disposition_spec(
    deadline: Option<Seq<char>>,
    now_ms: int,
) -> DeadlineDisposition {
    match deadline {
        None => DeadlineDisposition::Absent,
        Some(s) => if !valid_date_str(s) {
            DeadlineDisposition::IgnoredInvalid
        } else if days_remaining_spec(date_of_str(s), now_ms) >= 1 {
            DeadlineDisposition::Applied(days_remaining_spec(date_of_str(s), now_ms) as u64)
        } else {
            DeadlineDisposition::IgnoredNotFuture
        },
    }
}

/// The interval a review is finally scheduled at: the earned interval,
/// compressed when an applicable deadline is given.
pub open spec fn final_interval_spec(
    card: SrsCard,
    review: ReviewInput,
    deadline: Option<Seq<char>>,
    now_ms: int,
) -> int {
    let base = base_interval_spec(card, review);
    match deadline {
        Some(s) => if compression_applies(s, now_ms) {
            compressed_interval_spec(
                base,
                days_remaining_spec(date_of_str(s), now_ms),
                reps_after_spec(card, review),
            )
        } else {
            base
        },
        None => base,
    }
}

/// An interval in hundredths of a day, rounded to whole days, half up.
pub open spec fn round_days_spec(interval_centi: int) -> int {
    (interval_centi + 50) / 100
}

/// The absolute due timestamp: now plus the final interval rounded to whole
/// days.
pub open spec fn due_ms_spec(
    card: SrsCard,
    review: ReviewInput,
    deadline: Option<Seq<char>>,
    now_ms: int,
) -> int {
    now_ms + round_days_spec(final_interval_spec(card, review, deadline, now_ms)) * MS_PER_DAY
}

/// Works out explicitly how a deadline affects this scheduling round: the
/// whole days remaining when it applies, or the named reason it is ignored.
pub fn deadline_disposition(deadline: Option<&str>, now_ms: i64) -> (d: DeadlineDisposition)
    requires
        0 <= now_ms <= MAX_TIMESTAMP_MS,
    ensures
        d == deadline_disposition_spec(deadline_view(deadline), now_ms as int),
        d matches DeadlineDisposition::Applied(n) ==> 1 <= n <= 3_000_000,
        (match deadline_view(deadline) {
            Some(s) => compression_applies(s, now_ms as int) ==> (d matches
                DeadlineDisposition::Applied(n) && n == days_remaining_spec(
                date_of_str(s),
                now_ms as int,
            )),
            None => true,
        }),
{
    match deadline {
        None => DeadlineDisposition::Absent,
        Some(s) => match parse_date(s) {
            None => DeadlineDisposition::IgnoredInvalid,
            Some(parsed) => {
                let dce = days_from_ce(parsed.year, parsed.month, parsed.day);
                let deadline_ms: i64 = (dce - EPOCH_DAYS_FROM_CE) * MS_PER_DAY;
                if deadline_ms - now_ms >= MS_PER_DAY {
                    let diff: u64 = (deadline_ms - now_ms) as u64;
                    let days_remaining: u64 = diff / (MS_PER_DAY as u64);
                    proof {
                        vstd::arithmetic::div_mod::lemma_div_pos_is_pos(
                            diff as int,
                            MS_PER_DAY as int,
                        );
                        vstd::arithmetic::div_mod::lemma_div_is_ordered(
                            MS_PER_DAY as int,
                            diff as int,
                            MS_PER_DAY as int,
                        );
                        vstd::arithmetic::div_mod::lemma_div_is_ordered(
                            diff as int,
                            3_000_000 * (MS_PER_DAY as int),
                            MS_PER_DAY as int,
                        );
                        vstd::arithmetic::div_mod::lemma_div_multiples_vanish(
                            3_000_000,
                            MS_PER_DAY as int,
                        );
                    }
                    DeadlineDisposition::Applied(days_remaining)
                } else {
                    DeadlineDisposition::IgnoredNotFuture
                }
            },
        },
    }
}

/// Applies deadline compression to an interval, given how many whole days
/// remain until the deadline and the already-updated repetition count.
pub fn compress_interval(interval_days: u64, days_remaining: u64, repetitions: u32) -> (r: u64)
    requires
        1 <= days_remaining,
        days_remaining * 100 <= u64::MAX,
    ensures
        r == compressed_interval_spec(
            interval_days as int,
            days_remaining as int,
            repetitions as int,
        ),
{
    let needed: u64 = if repetitions >= MATURITY_REVIEWS - 1 {
        1
    } else {
        (MATURITY_REVIEWS - repetitions) as u64
    };
    let max_interval = days_remaining * 100 / needed;
    let capped = if interval_days <= max_interval {
        interval_days
    } else {
        max_interval
    };
    if capped >= DAY_CENTI {
        capped
    } else {
        DAY_CENTI
    }
}

/// One review's grading and state advance, before deadline compression and
/// due-date rendering.
#[derive(Clone, Debug)]
pub struct CardAdvance {
    /// Quality grade: 0, 3, 4 or 5.
    pub quality: i32,
    /// Updated ease factor, in hundredths.
    pub ease_factor: u64,
    /// Updated repetition count.
    pub repetitions: u32,
    /// The earned interval, in hundredths of a day.
    pub interval_days: u64,
}

/// Grades one review and advances the card's ease, repetition count and
/// interval, leaving deadline compression and due-date rendering to the
/// caller.
pub fn advance_card(card: &SrsCard, review: &ReviewInput) -> (adv: CardAdvance)
    requires
        MIN_EASE_CENTI <= card.ease_factor,
        card.ease_factor + 15 <= u64::MAX,
        card.interval_days * (card.ease_factor + 15) * 13 <= u64::MAX,
        card.repetitions < u32::MAX,
    ensures
        adv.quality == quality_spec(*review),
        adv.ease_factor == ease_after_spec(*card, *review),
        adv.repetitions == reps_after_spec(*card, *review),
        adv.interval_days == base_interval_spec(*card, *review),
        DAY_CENTI <= adv.interval_days,
{
    let outcome = classify_review(review);
    let quality: i32;
    let ease_factor: u64;
    let repetitions: u32;
    let interval_days: u64;
    match outcome {
        ReviewOutcome::Incorrect => {
            quality = 0;
            ease_factor = if card.ease_factor >= MIN_EASE_CENTI + 20 {
                card.ease_factor - 20
            } else {
                MIN_EASE_CENTI
            };
            repetitions = 0;
            interval_days = DAY_CENTI;
        },
        ReviewOutcome::CorrectFast => {
            quality = 5;
            ease_factor = card.ease_factor + 15;
            repetitions = card.repetitions + 1;
            proof {
                assert(card.interval_days * ease_factor * 13 <= card.interval_days * (
                card.ease_factor + 15) * 13) by (nonlinear_arith)
                    requires
                        0 <= card.interval_days,
                        0 <= ease_factor <= card.ease_factor + 15,
                ;
            }
            interval_days = next_interval(repetitions, card.interval_days, ease_factor, 13);
        },
        ReviewOutcome::CorrectNormal => {
            quality = 4;
            ease_factor = card.ease_factor + 5;
            repetitions = card.repetitions + 1;
            proof {
                assert(card.interval_days * ease_factor * 10 <= card.interval_days * (
                card.ease_factor + 15) * 13) by (nonlinear_arith)
                    requires
                        0 <= card.interval_days,
                        0 <= ease_factor <= card.ease_factor + 15,
                ;
            }
            interval_days = next_interval(repetitions, card.interval_days, ease_factor, 10);
        },
        ReviewOutcome::CorrectSlow => {
            quality = 3;
            ease_factor = if card.ease_factor >= MIN_EASE_CENTI + 10 {
                card.ease_factor - 10
            } else {
                MIN_EASE_CENTI
            };
            repetitions = card.repetitions + 1;
            proof {
                assert(card.interval_days * ease_factor * 8 <= card.interval_days * (
                card.ease_factor + 15) * 13) by (nonlinear_arith)
                    requires
                        0 <= card.interval_days,
                        0 <= ease_factor <= card.ease_factor + 15,
                ;
            }
            interval_days = next_interval(repetitions, card.interval_days, ease_factor, 8);
        },
    }
    CardAdvance { quality, ease_factor, repetitions, interval_days }
}

/// The scheduler's domain: the card is well-formed and every fixed-point
/// product of the computation fits its machine word, with the due date
/// staying inside four-digit years. Callers validate against this; the
/// scheduler itself assumes it.
pub open spec fn schedulable_spec(card: SrsCard, review: ReviewInput, now_ms: int) -> bool {
    &&& MIN_EASE_CENTI <= card.ease_factor
    &&& card.ease_factor + 15 <= u64::MAX
    &&& card.interval_days * (card.ease_factor + 15) * 13 <= u64::MAX
    &&& review.response_time_seconds * 1000 <= u64::MAX
    &&& card.repetitions < u32::MAX
    &&& 0 <= now_ms
    &&& now_ms + round_days_spec(base_interval_spec(card, review)) * MS_PER_DAY
        <= MAX_TIMESTAMP_MS
}

/// Runs the whole scheduler on one review: grades it, shifts ease and
/// repetitions, computes the next interval, compresses it toward the
/// deadline when one applies, and renders the absolute due date.
///
/// `now_ms` is the current time in epoch milliseconds, injected by the
/// caller so the computation stays pure. The deadline, if given, is a
/// `YYYY-MM-DD` string; strings that do not name a valid future date are
/// ignored rather than rejected.
pub fn calculate_srs(
    card: &SrsCard,
    review: &ReviewInput,
    deadline: Option<&str>,
    now_ms: i64,
) -> (result: SrsResult)
    requires
        schedulable_spec(*card, *review, now_ms as int),
    ensures
        result.quality == quality_spec(*review),
        result.speed_ratio == speed_ratio_milli_spec(*review),
        result.repetitions == reps_after_spec(*card, *review),
        result.ease_factor == ease_after_spec(*card, *review),
        result.interval_days == final_interval_spec(*card, *review, deadline_view(deadline), now_ms as int),
        result.due_date@ == iso_utc_of(due_ms_spec(*card, *review, deadline_view(deadline), now_ms as int)),
        MIN_EASE_CENTI <= result.ease_factor,
        DAY_CENTI <= result.interval_days,
        !review.correct ==> result.repetitions == 0 && result.interval_days == DAY_CENTI
            && result.quality == 0,
        review.correct ==> result.repetitions == card.repetitions + 1,
        result.quality == 0 || result.quality == 3 || result.quality == 4 || result.quality == 5,
        review.timer_limit_seconds == 0 ==> result.speed_ratio == NEUTRAL_SPEED_RATIO_MILLI,
        now_ms + MS_PER_DAY <= due_ms_spec(*card, *review, deadline_view(deadline), now_ms as int),
{
    let adv = advance_card(card, review);
    let speed_ratio = speed_ratio_milli(review);
    let repetitions = adv.repetitions;
    let mut interval_days = adv.interval_days;
    let ghost base: int = base_interval_spec(*card, *review);
    proof {
        // One day is the least the schedule can say, so `now` itself stays
        // within the formatter's range.
        vstd::arithmetic::div_mod::lemma_div_is_ordered(150, base + 50, 100);
    }

    if let DeadlineDisposition::Applied(days_remaining) = deadline_disposition(deadline, now_ms) {
        interval_days = compress_interval(interval_days, days_remaining, repetitions);
    }
    assert(interval_days == final_interval_spec(*card, *review, deadline_view(deadline), now_ms as int));
    assert(interval_days <= base);

    proof {
        vstd::arithmetic::div_mod::lemma_fundamental_div_mod(base + 50, 100);
        vstd::arithmetic::div_mod::lemma_div_is_ordered(
            interval_days as int + 50,
            base + 50,
            100,
        );
        vstd::arithmetic::div_mod::lemma_div_is_ordered(150, interval_days as int + 50, 100);
    }
    let rounded_days: u64 = (interval_days + 50) / 100;
    let due_ms: i64 = now_ms + (rounded_days as i64) * MS_PER_DAY;
    let due_date = format_utc_timestamp(due_ms);

    SrsResult {
        ease_factor: adv.ease_factor,
        interval_days,
        repetitions,
        due_date,
        quality: adv.quality,
        speed_ratio,
    }
}

/// Decides whether one review lies inside the scheduler's domain,
/// [`schedulable_spec`]: every check is the runtime image of one of its
/// conjuncts.
pub fn check_schedulable(card: &SrsCard, review: &ReviewInput, now_ms: i64) -> (ok: bool)
    ensures
        ok == schedulable_spec(*card, *review, now_ms as int),
{
    if card.ease_factor < MIN_EASE_CENTI {
        return false;
    }
    if card.ease_factor > u64::MAX - 15 {
        return false;
    }
    let grown = match card.interval_days.checked_mul(card.ease_factor + 15) {
        Some(g) => g,
        None => {
            proof {
                assert(card.interval_days * (card.ease_factor + 15) <= card.interval_days * (
                card.ease_factor + 15) * 13) by (nonlinear_arith)
                    requires
                        0 <= card.interval_days * (card.ease_factor + 15),
                ;
                assert(card.interval_days * (card.ease_factor + 15) >= 0) by (nonlinear_arith);
            }
            return false;
        },
    };
    if grown.checked_mul(13).is_none() {
        return false;
    }
    if review.response_time_seconds.checked_mul(1000).is_none() {
        return false;
    }
    if card.repetitions == u32::MAX {
        return false;
    }
    if now_ms < 0 {
        return false;
    }
    let adv = advance_card(card, review);
    // Rounded to whole days, intervals of 2_932_897 days or more put the due
    // date past the formatter's range even when scheduled from the epoch.
    if adv.interval_days >= 293_289_650 {
        proof {
            vstd::arithmetic::div_mod::lemma_div_is_ordered(
                293_289_700,
                adv.interval_days as int + 50,
                100,
            );
        }
        return false;
    }
    proof {
        vstd::arithmetic::div_mod::lemma_div_is_ordered(
            adv.interval_days as int + 50,
            293_289_699,
            100,
        );
    }
    let rounded: u64 = (adv.interval_days + 50) / 100;
    now_ms <= MAX_TIMESTAMP_MS - (rounded as i64) * MS_PER_DAY
}

/// Validates one review against the scheduler's domain, then schedules it.
/// Returns `None` exactly when an input falls outside that domain: an ease
/// or interval so large a fixed-point product would overflow, or a time so
/// late the due date would leave four-digit years. All ordinary card states
/// are scheduled.
pub fn try_calculate_srs(
    card: &SrsCard,
    review: &ReviewInput,
    deadline: Option<&str>,
    now_ms: i64,
) -> (r: Option<SrsResult>)
    ensures
        r is Some <==> schedulable_spec(*card, *review, now_ms as int),
        (match r {
            Some(result) => {
                &&& result.quality == quality_spec(*review)
                &&& result.speed_ratio == speed_ratio_milli_spec(*review)
                &&& result.repetitions == reps_after_spec(*card, *review)
                &&& result.ease_factor == ease_after_spec(*card, *review)
                &&& result.interval_days == final_interval_spec(
                    *card,
                    *review,
                    deadline_view(deadline),
                    now_ms as int,
                )
                &&& result.due_date@ == iso_utc_of(
                    due_ms_spec(*card, *review, deadline_view(deadline), now_ms as int),
                )
                &&& MIN_EASE_CENTI <= result.ease_factor
                &&& DAY_CENTI <= result.interval_days
            },
            None => true,
        }),
{
    if check_schedulable(card, review, now_ms) {
        Some(calculate_srs(card, review, deadline, now_ms))
    } else {
        None
    }
}

/// Law: the interval a review earns is never under one day, whatever the
/// card state and review outcome.
pub proof fn lemma_base_interval_floor(card: SrsCard, review: ReviewInput)
    ensures
        base_interval_spec(card, review) >= DAY_CENTI,
{
}

/// Law: a deadline never extends the schedule. Whatever deadline string is
/// supplied - valid and future, past, or malformed - the interval scheduled
/// with it is never larger than the interval scheduled without one.
pub proof fn lemma_deadline_never_extends(
    card: SrsCard,
    review: ReviewInput,
    deadline: Seq<char>,
    now_ms: int,
)
    ensures
        final_interval_spec(card, review, Some(deadline), now_ms) <= final_interval_spec(
            card,
            review,
            None,
            now_ms,
        ),
{
    lemma_base_interval_floor(card, review);
}

/// Law: the quality grade is always exactly one of {0, 3, 4, 5}, and is
/// determined by correctness and the speed ratio alone: 0 exactly on a
/// lapse; 5 exactly on a correct answer within 60% of a positive budget; 4
/// exactly on a correct answer within budget, untimed reviews included; 3
/// exactly on a correct answer over budget. The thresholds compare the
/// ratio as an exact rational: ratio <= 0.6 is 5*time <= 3*budget.
pub proof fn lemma_quality_partition(review: ReviewInput)
    ensures
        quality_spec(review) == 0 || quality_spec(review) == 3 || quality_spec(review) == 4
            || quality_spec(review) == 5,
        (quality_spec(review) == 0) <==> !review.correct,
        (quality_spec(review) == 5) <==> review.correct && review.timer_limit_seconds > 0 && 5
            * review.response_time_seconds <= 3 * review.timer_limit_seconds,
        (quality_spec(review) == 4) <==> review.correct && (review.timer_limit_seconds == 0 || (5
            * review.response_time_seconds > 3 * review.timer_limit_seconds
            && review.response_time_seconds <= review.timer_limit_seconds)),
        (quality_spec(review) == 3) <==> review.correct && review.timer_limit_seconds > 0
            && review.response_time_seconds > review.timer_limit_seconds,
{
}

/// Law: among timed reviews, the quality grade depends only on correctness
/// and the speed ratio. Two reviews with the same outcome and the same
/// ratio - stated exactly, as equal cross-products - earn the same grade,
/// whatever their absolute times and budgets.
pub proof fn lemma_quality_determined_by_ratio(first: ReviewInput, second: ReviewInput)
    by (nonlinear_arith)
    requires
        first.correct == second.correct,
        first.timer_limit_seconds > 0,
        second.timer_limit_seconds > 0,
        first.response_time_seconds * second.timer_limit_seconds == second.response_time_seconds
            * first.timer_limit_seconds,
    ensures
        quality_spec(first) == quality_spec(second),
{
}

} // verus!
