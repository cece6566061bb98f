//! Scheduler behaviour on concrete reviews: the grading buckets, ease and
//! interval movement, deadline compression and due-date rendering.
//!
//! Fixed-point units throughout: ease and intervals in hundredths, speed
//! ratios in thousandths. 2024-01-01T00:00:00Z is 1_704_067_200_000 in epoch
//! milliseconds.

use flashmath::srs::{calculate_srs, ReviewInput, SrsCard};

const NOW_MS: i64 = 1_704_067_200_000;

fn card(ease_factor: u64, interval_days: u64, repetitions: u32) -> SrsCard {
    SrsCard { ease_factor, interval_days, repetitions, due_date: None }
}

fn review(correct: bool, response_time_seconds: u64, timer_limit_seconds: u64) -> ReviewInput {
    ReviewInput { correct, response_time_seconds, timer_limit_seconds }
}

#[test]
fn test_incorrect_resets() {
    let card = card(250, 1000, 3);
    let review = review(false, 30, 60);
    let result = calculate_srs(&card, &review, None, NOW_MS);
    assert_eq!(result.repetitions, 0);
    assert_eq!(result.interval_days, 100);
    assert_eq!(result.quality, 0);
    assert_eq!(result.ease_factor, 230);
}

#[test]
fn test_correct_fast() {
    let card = card(250, 0, 0);
    let review = review(true, 20, 60);
    let result = calculate_srs(&card, &review, None, NOW_MS);
    assert_eq!(result.repetitions, 1);
    assert_eq!(result.interval_days, 100);
    assert_eq!(result.quality, 5);
    assert_eq!(result.ease_factor, 265);
}

#[test]
fn test_correct_normal() {
    let card = card(250, 300, 2);
    let review = review(true, 45, 60);
    let result = calculate_srs(&card, &review, None, NOW_MS);
    assert_eq!(result.repetitions, 3);
    // 3 days * 2.55 * 1.0 = 7.65 days (the ease moves to 2.55 first)
    assert_eq!(result.interval_days, 765);
    assert_eq!(result.quality, 4);
}

#[test]
fn test_correct_slow() {
    let card = card(250, 300, 2);
    let review = review(true, 90, 60);
    let result = calculate_srs(&card, &review, None, NOW_MS);
    assert_eq!(result.quality, 3);
    assert_eq!(result.ease_factor, 240);
}

#[test]
fn test_ease_floor() {
    let card = card(130, 100, 0);
    let review = review(false, 30, 60);
    let result = calculate_srs(&card, &review, None, NOW_MS);
    assert_eq!(result.ease_factor, 130);
}

#[test]
fn test_deadline_compression() {
    let card = card(250, 1000, 3);
    let review = review(true, 30, 60);
    // Deadline 5 days from now: with 4 repetitions done after this review,
    // reviews still needed = max(6 - 4, 1) = 2, so the interval is capped
    // near 5 / 2 = 2.5 days, far below the uncompressed growth.
    let result = calculate_srs(&card, &review, Some("2024-01-06"), NOW_MS);
    assert!(result.interval_days <= 300);
}

#[test]
fn test_deadline_compression_exact() {
    let card = card(250, 1000, 3);
    let review = review(true, 30, 60);
    // Midnight of 2024-01-06 is exactly 5 days past NOW_MS, so the cap is
    // 5 days / 2 remaining reviews = 2.50 days on the nose.
    let result = calculate_srs(&card, &review, Some("2024-01-06"), NOW_MS);
    assert_eq!(result.interval_days, 250);
}

#[test]
fn test_deadline_never_extends_concrete() {
    let card = card(250, 1000, 3);
    let review = review(true, 30, 60);
    let with_deadline = calculate_srs(&card, &review, Some("2024-01-06"), NOW_MS);
    let without = calculate_srs(&card, &review, None, NOW_MS);
    assert!(with_deadline.interval_days <= without.interval_days);
    assert_eq!(without.interval_days, 3445);
}

#[test]
fn test_deadline_in_past_ignored() {
    let card = card(250, 1000, 3);
    let review = review(true, 30, 60);
    let result = calculate_srs(&card, &review, Some("2023-12-25"), NOW_MS);
    assert_eq!(result.interval_days, 3445);
}

#[test]
fn test_deadline_same_day_ignored() {
    let card = card(250, 1000, 3);
    let review = review(true, 30, 60);
    // Midnight of the current day lies in the past, so no compression.
    let result = calculate_srs(&card, &review, Some("2024-01-01"), NOW_MS);
    assert_eq!(result.interval_days, 3445);
}

#[test]
fn test_deadline_malformed_ignored() {
    let card = card(250, 1000, 3);
    let review = review(true, 30, 60);
    let result = calculate_srs(&card, &review, Some("06/01/2024"), NOW_MS);
    assert_eq!(result.interval_days, 3445);
    let result = calculate_srs(&card, &review, Some("2024-13-01"), NOW_MS);
    assert_eq!(result.interval_days, 3445);
    let result = calculate_srs(&card, &review, Some(""), NOW_MS);
    assert_eq!(result.interval_days, 3445);
}

#[test]
fn test_untimed_review_neutral_ratio() {
    let card = card(250, 300, 2);
    let review = review(true, 5000, 0);
    let result = calculate_srs(&card, &review, None, NOW_MS);
    assert_eq!(result.speed_ratio, 1000);
    assert_eq!(result.quality, 4);
}

#[test]
fn test_speed_ratio_value() {
    let card = card(250, 0, 0);
    let review = review(true, 20, 60);
    let result = calculate_srs(&card, &review, None, NOW_MS);
    // 20 / 60 of the budget, in thousandths, truncated.
    assert_eq!(result.speed_ratio, 333);
}

#[test]
fn test_quality_bucket_boundaries() {
    let card = card(250, 300, 2);
    // Exactly 60% of the budget still grades fast.
    assert_eq!(calculate_srs(&card, &review(true, 36, 60), None, NOW_MS).quality, 5);
    // Just over 60% grades normal.
    assert_eq!(calculate_srs(&card, &review(true, 37, 60), None, NOW_MS).quality, 4);
    // Exactly on budget still grades normal.
    assert_eq!(calculate_srs(&card, &review(true, 60, 60), None, NOW_MS).quality, 4);
    // One second over grades slow.
    assert_eq!(calculate_srs(&card, &review(true, 61, 60), None, NOW_MS).quality, 3);
}

#[test]
fn test_ease_floor_on_slow_review() {
    let card = card(135, 300, 2);
    let review = review(true, 90, 60);
    let result = calculate_srs(&card, &review, None, NOW_MS);
    assert_eq!(result.ease_factor, 130);
    assert_eq!(result.quality, 3);
}

#[test]
fn test_interval_floor_on_shrinking_growth() {
    // 0.5 days * 1.40 * 0.8 = 0.56 days would shrink under a day; the
    // scheduler floors it at one day.
    let card = card(150, 50, 5);
    let review = review(true, 90, 60);
    let result = calculate_srs(&card, &review, None, NOW_MS);
    assert_eq!(result.interval_days, 100);
}

#[test]
fn test_graduation_steps() {
    // First success: one day, whatever the stored interval.
    let first = calculate_srs(&card(250, 0, 0), &review(true, 45, 60), None, NOW_MS);
    assert_eq!(first.interval_days, 100);
    // Second success: three days flat.
    let second = calculate_srs(&card(250, 100, 1), &review(true, 45, 60), None, NOW_MS);
    assert_eq!(second.interval_days, 300);
}

#[test]
fn test_due_date_rendering() {
    // From the epoch, an incorrect review schedules exactly one day out.
    let result = calculate_srs(&card(250, 1000, 3), &review(false, 30, 60), None, 0);
    assert_eq!(result.due_date, "1970-01-02T00:00:00.000Z");
}

#[test]
fn test_due_date_rounds_half_up() {
    // 7.65 days rounds to 8 days past 2024-01-01T00:00:00Z.
    let result = calculate_srs(&card(250, 300, 2), &review(true, 45, 60), None, NOW_MS);
    assert_eq!(result.interval_days, 765);
    assert_eq!(result.due_date, "2024-01-09T00:00:00.000Z");
}

#[test]
fn test_new_card_defaults() {
    let card = SrsCard::new();
    assert_eq!(card.ease_factor, 250);
    assert_eq!(card.interval_days, 0);
    assert_eq!(card.repetitions, 0);
    assert!(card.due_date.is_none());
}
