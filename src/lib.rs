//! Motion-triggered recording: the per-frame decisions of a loop that compares
//! each captured frame with a reference frame and records the frames on which
//! the scene changed.
mod caption;
mod detector;
mod keys;

pub use caption::{
    caption, caption_at, caption_text, decimal, decimal_text, digit_char, utc_time_text,
    DATE_RANGE_SECS,
};
pub use detector::{
    counter_after, counter_step, lemma_counter_counts_frames_since_motion, Detector, Outcome,
};
pub use keys::{should_stop, NO_KEY};
