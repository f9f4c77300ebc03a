//! Measures how long a scope takes and reports it as a log record.
//!
//! A [`MeasureTime`] is started when a scope begins, unless the log level it would report at
//! is disabled; when the scope ends it yields one [`TimeRecord`] whose message reads
//! "<name> took <duration>", with the duration in a compact human-readable form
//! ([`human_readable_time`]).

mod decimal;
mod duration_text;
mod timer;

pub use decimal::{decimal, digit};
pub use duration_text::{
    duration_text, ends_with_millis, format_duration, hundredths_text, human_readable_time,
    joined, lemma_no_millis_past_thirty_seconds, longer_than, millis_piece, pieces, plural_piece,
    render_duration, subsec_nanos_of, text_of, unit_piece, whole_seconds_of, FormattedDuration,
};
pub use timer::{
    filter_rank, finish_scope, is_report, level_enabled, level_of, level_rank, should_measure,
    Level, LevelFilter, MeasureTime, TimeRecord, TimerView,
};
