//! Spaced-repetition scheduling for a timed flashcard trainer.
//!
//! The heart of the crate is [`srs::calculate_srs`]: a pure function that
//! takes a card's memory-strength state and the outcome of one timed review,
//! grades the review, moves the card's ease factor and review interval, and
//! computes the next due date, optionally compressing the interval so the
//! remaining reviews still fit before a user-chosen deadline.
//!
//! All rates are kept in fixed-point integer units so that every step of the
//! computation can be stated and proved exactly: ease factors and day
//! intervals in hundredths, speed ratios in thousandths.

pub mod dates;
pub mod records;
pub mod srs;
