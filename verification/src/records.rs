//! Data records the application persists and passes around: folders,
//! flashcards and their creation/update inputs, review audit rows, study
//! statistics and provider configuration.
//!
//! Fixed-point conventions match the scheduler: ease factors and day
//! intervals in hundredths, speed ratios and accuracies in thousandths.

use vstd::prelude::*;

use crate::srs::{ReviewInput, SrsCard, SrsResult};

verus! {

/// A folder grouping flashcards, optionally carrying a `YYYY-MM-DD` deadline
/// that compresses the review schedule of its cards.
#[derive(Clone, Debug)]
pub struct Folder {
    pub id: String,
    pub name: String,
    pub emoji: Option<String>,
    pub position: i32,
    pub deadline: Option<String>,
    pub created_at: String,
    pub updated_at: String,
}

/// A stored flashcard: its content, timer configuration, and the four
/// scheduler-owned columns (ease, interval, repetitions, due date).
#[derive(Clone, Debug)]
pub struct Flashcard {
    pub id: String,
    pub folder_id: Option<String>,
    pub question_type: String,
    pub question_content: String,
    pub answer_type: Option<String>,
    pub answer_content: Option<String>,
    pub timer_mode: String,
    pub timer_seconds: i32,
    /// Ease factor in hundredths.
    pub ease_factor: u64,
    /// Review interval in hundredths of a day.
    pub interval_days: u64,
    pub repetitions: u32,
    pub due_date: Option<String>,
    pub last_reviewed: Option<String>,
    pub created_at: String,
    pub updated_at: String,
}

/// Fields a caller supplies when creating a flashcard.
#[derive(Clone, Debug)]
pub struct CreateFlashcardInput {
    pub folder_id: Option<String>,
    pub question_type: String,
    pub question_content: String,
    pub answer_type: Option<String>,
    pub answer_content: Option<String>,
    pub timer_mode: Option<String>,
    pub timer_seconds: Option<i32>,
}

/// Fields a caller may change on an existing flashcard.
#[derive(Clone, Debug)]
pub struct UpdateFlashcardInput {
    pub folder_id: Option<String>,
    pub question_type: Option<String>,
    pub question_content: Option<String>,
    pub answer_type: Option<String>,
    pub answer_content: Option<String>,
    pub timer_mode: Option<String>,
    pub timer_seconds: Option<i32>,
}

/// An immutable audit row recorded after each review: the review's inputs,
/// its grade, and the card's ease and interval before and after.
#[derive(Clone, Debug)]
pub struct ReviewRecord {
    pub id: String,
    pub flashcard_id: String,
    /// 1 for a correct answer, 0 for a lapse.
    pub correct: i32,
    pub response_time_seconds: u64,
    pub timer_limit_seconds: u64,
    /// Speed ratio in thousandths.
    pub speed_ratio: u64,
    pub quality: i32,
    /// Ease in hundredths, before and after the review.
    pub ease_before: u64,
    pub ease_after: u64,
    /// Interval in hundredths of a day, before and after the review.
    pub interval_before: u64,
    pub interval_after: u64,
    pub reviewed_at: String,
}

/// A review submission as the UI hands it in.
#[derive(Clone, Debug)]
pub struct ReviewInputCmd {
    pub flashcard_id: String,
    pub correct: bool,
    pub response_time_seconds: u64,
}

/// Review metadata surfaced back to the UI after scheduling.
#[derive(Clone, Debug)]
pub struct ReviewResultCmd {
    pub quality: i32,
    /// Speed ratio in thousandths.
    pub speed_ratio: u64,
    /// Ease factor in hundredths.
    pub ease_factor: u64,
    /// Interval in hundredths of a day.
    pub interval_days: u64,
    pub due_date: String,
}

/// Aggregate study statistics for display.
#[derive(Clone, Debug)]
pub struct StudyStats {
    pub total_cards: i32,
    pub due_today: i32,
    pub overdue: i32,
    pub reviewed_today: i32,
    /// Share of today's reviews answered correctly, in thousandths.
    pub accuracy_today: u64,
}

/// Configuration for the external language-model provider used by the
/// capture pipeline; injected into callers, never read from global state.
#[derive(Clone, Debug)]
pub struct LLMConfig {
    pub provider: String,
    pub api_key: String,
    pub model: String,
    pub base_url: String,
}

impl Flashcard {
    /// The scheduler's view of this card: its four scheduler-owned columns.
    pub fn srs_state(&self) -> (card: SrsCard)
        ensures
            card.ease_factor == self.ease_factor,
            card.interval_days == self.interval_days,
            card.repetitions == self.repetitions,
            card.due_date == self.due_date,
    {
        SrsCard {
            ease_factor: self.ease_factor,
            interval_days: self.interval_days,
            repetitions: self.repetitions,
            due_date: self.due_date.clone(),
        }
    }

    /// Writes a scheduling decision back into the four scheduler-owned
    /// columns, leaving every other field unchanged.
    pub fn apply_review_result(&mut self, result: &SrsResult)
        ensures
            final(self).ease_factor == result.ease_factor,
            final(self).interval_days == result.interval_days,
            final(self).repetitions == result.repetitions,
            final(self).due_date == Some(result.due_date),
            final(self).id == old(self).id,
            final(self).folder_id == old(self).folder_id,
            final(self).question_type == old(self).question_type,
            final(self).question_content == old(self).question_content,
            final(self).answer_type == old(self).answer_type,
            final(self).answer_content == old(self).answer_content,
            final(self).timer_mode == old(self).timer_mode,
            final(self).timer_seconds == old(self).timer_seconds,
            final(self).last_reviewed == old(self).last_reviewed,
            final(self).created_at == old(self).created_at,
            final(self).updated_at == old(self).updated_at,
    {
        self.ease_factor = result.ease_factor;
        self.interval_days = result.interval_days;
        self.repetitions = result.repetitions;
        self.due_date = Some(result.due_date.clone());
    }
}

impl ReviewRecord {
    /// Builds the immutable audit row for one review: the review's inputs
    /// and grade together with the card's ease and interval before (from
    /// the pre-review state) and after (from the scheduler's result).
    pub fn audit(
        id: String,
        flashcard_id: String,
        before: &SrsCard,
        review: &ReviewInput,
        result: &SrsResult,
        reviewed_at: String,
    ) -> (row: ReviewRecord)
        ensures
            row.id == id,
            row.flashcard_id == flashcard_id,
            row.correct == if review.correct { 1int } else { 0int },
            row.response_time_seconds == review.response_time_seconds,
            row.timer_limit_seconds == review.timer_limit_seconds,
            row.speed_ratio == result.speed_ratio,
            row.quality == result.quality,
            row.ease_before == before.ease_factor,
            row.ease_after == result.ease_factor,
            row.interval_before == before.interval_days,
            row.interval_after == result.interval_days,
            row.reviewed_at == reviewed_at,
    {
        ReviewRecord {
            id,
            flashcard_id,
            correct: if review.correct {
                1
            } else {
                0
            },
            response_time_seconds: review.response_time_seconds,
            timer_limit_seconds: review.timer_limit_seconds,
            speed_ratio: result.speed_ratio,
            quality: result.quality,
            ease_before: before.ease_factor,
            ease_after: result.ease_factor,
            interval_before: before.interval_days,
            interval_after: result.interval_days,
            reviewed_at,
        }
    }
}

} // verus!
