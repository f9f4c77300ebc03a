use vstd::prelude::*;
use std::time::{Duration, Instant};
use crate::duration_text::{human_readable_time, text_of};

verus! {

/// `std::time::Instant`, a reading of the monotonic clock, carried opaquely from the start
/// of a measurement to its end.
#[verifier::external_type_specification]
#[verifier::external_body]
pub struct ExInstant(std::time::Instant);

/// Relies on `Instant::now`: a reading of the monotonic clock.
#[verifier::external_body]
fn read_clock() -> (r: Instant) {
    Instant::now()
}

/// Relies on `Instant::elapsed`: the time that has passed on the monotonic clock since `start`.
#[verifier::external_body]
fn elapsed_since(start: &Instant) -> (r: Duration) {
    start.elapsed()
}

/// The severity of a log record, most severe first.
#[derive(Clone, Copy, Debug, PartialEq, Eq, Structural)]
pub enum Level {
    Error,
    Warn,
    Info,
    Debug,
    Trace,
}

/// A level to measure at: a log severity, or `Off` for a timer that prints directly
/// instead of going through the log sink.
#[derive(Clone, Copy, Debug, PartialEq, Eq, Structural)]
pub enum LevelFilter {
    Off,
    Error,
    Warn,
    Info,
    Debug,
    Trace,
}

/// Position of a level in the order of verbosity (`Error` is 1, `Trace` is 5).
pub open spec fn level_rank(l: Level) -> nat {
    match l {
        Level::Error => 1,
        Level::Warn => 2,
        Level::Info => 3,
        Level::Debug => 4,
        Level::Trace => 5,
    }
}

/// Position of a filter in the order of verbosity (`Off` is 0, `Trace` is 5).
pub open spec fn filter_rank(f: LevelFilter) -> nat {
    match f {
        LevelFilter::Off => 0,
        LevelFilter::Error => 1,
        LevelFilter::Warn => 2,
        LevelFilter::Info => 3,
        LevelFilter::Debug => 4,
        LevelFilter::Trace => 5,
    }
}

/// The log severity of a filter; `Off` has none.
pub open spec fn level_of(f: LevelFilter) -> Option<Level> {
    match f {
        LevelFilter::Off => None,
        LevelFilter::Error => Some(Level::Error),
        LevelFilter::Warn => Some(Level::Warn),
        LevelFilter::Info => Some(Level::Info),
        LevelFilter::Debug => Some(Level::Debug),
        LevelFilter::Trace => Some(Level::Trace),
    }
}

impl LevelFilter {
    /// The log severity of this filter, or `None` for `Off`.
    pub fn to_level(&self) -> (r: Option<Level>)
        ensures
            r == level_of(*self),
    {
        match self {
            LevelFilter::Off => None,
            LevelFilter::Error => Some(Level::Error),
            LevelFilter::Warn => Some(Level::Warn),
            LevelFilter::Info => Some(Level::Info),
            LevelFilter::Debug => Some(Level::Debug),
            LevelFilter::Trace => Some(Level::Trace),
        }
    }
}

/// Whether a sink whose minimum level is `max` accepts records at `level`.
pub fn level_enabled(level: Level, max: LevelFilter) -> (r: bool)
    ensures
        r == (level_rank(level) <= filter_rank(max)),
{
    let rank: u8 = match level {
        Level::Error => 1,
        Level::Warn => 2,
        Level::Info => 3,
        Level::Debug => 4,
        Level::Trace => 5,
    };
    let max_rank: u8 = match max {
        LevelFilter::Off => 0,
        LevelFilter::Error => 1,
        LevelFilter::Warn => 2,
        LevelFilter::Info => 3,
        LevelFilter::Debug => 4,
        LevelFilter::Trace => 5,
    };
    rank <= max_rank
}

/// Whether a timer at `level` is started: always for `Off`, which prints directly,
/// and otherwise only where the log sink accepts the level.
pub open spec fn should_measure(level: LevelFilter, sink_enabled: bool) -> bool {
    level == LevelFilter::Off || sink_enabled
}

/// What a timer knows of itself, apart from its start instant.
pub ghost struct TimerView {
    pub name: Seq<char>,
    pub target: Seq<char>,
    pub module: Seq<char>,
    pub file: Seq<char>,
    pub line: u32,
    pub level: LevelFilter,
}

/// A running measurement: what it is called, where it was started, the level it reports
/// at, and when it started.
#[derive(Debug)]
pub struct MeasureTime {
    name: String,
    target: &'static str,
    module: &'static str,
    file: &'static str,
    line: u32,
    start: Instant,
    level: LevelFilter,
}

/// The outcome of a finished measurement: a record for the log sink when `level` is a
/// severity, or a line for standard output when it is `None`.
pub struct TimeRecord {
    pub level: Option<Level>,
    pub target: &'static str,
    pub module: &'static str,
    pub file: &'static str,
    pub line: u32,
    pub message: String,
}

/// `r` reports a timer described by `t` that ran for `elapsed`.
pub open spec fn is_report(t: TimerView, elapsed: Duration, r: TimeRecord) -> bool {
    &&& r.level == level_of(t.level)
    &&& r.target@ == t.target
    &&& r.module@ == t.module
    &&& r.file@ == t.file
    &&& r.line == t.line
    &&& r.message@ == t.name + " took "@ + text_of(elapsed)
}

impl View for MeasureTime {
    type V = TimerView;

    closed spec fn view(&self) -> TimerView {
        TimerView {
            name: self.name@,
            target: self.target@,
            module: self.module@,
            file: self.file@,
            line: self.line,
            level: self.level,
        }
    }
}

impl MeasureTime {
    /// Starts a measurement now.
    pub fn new(
        target: &'static str,
        module: &'static str,
        file: &'static str,
        line: u32,
        name: String,
        level: LevelFilter,
    ) -> (r: Self)
        ensures
            r@ == (TimerView {
                name: name@,
                target: target@,
                module: module@,
                file: file@,
                line,
                level,
            }),
    {
        MeasureTime { name, target, module, file, line, start: read_clock(), level }
    }

    /// Starts a measurement if `level` is `Off` or the log sink accepts it (`sink_enabled`);
    /// otherwise returns `None` without reading the clock.
    pub fn start(
        sink_enabled: bool,
        target: &'static str,
        module: &'static str,
        file: &'static str,
        line: u32,
        name: String,
        level: LevelFilter,
    ) -> (r: Option<Self>)
        ensures
            r is Some <==> should_measure(level, sink_enabled),
            r matches Some(t) ==> t@ == (TimerView {
                name: name@,
                target: target@,
                module: module@,
                file: file@,
                line,
                level,
            }),
    {
        if level == LevelFilter::Off || sink_enabled {
            Some(MeasureTime::new(target, module, file, line, name, level))
        } else {
            None
        }
    }

    /// The record of this measurement after it ran for `elapsed`.
    pub fn report(&self, elapsed: Duration) -> (r: TimeRecord)
        ensures
            is_report(self@, elapsed, r),
    {
        let mut message = self.name.clone();
        message.append(" took ");
        let text = human_readable_time(elapsed);
        message.append(text.as_str());
        TimeRecord {
            level: self.level.to_level(),
            target: self.target,
            module: self.module,
            file: self.file,
            line: self.line,
            message,
        }
    }

    /// Ends this measurement: its record, for the time that has passed since it started.
    pub fn finish(self) -> (r: TimeRecord)
        ensures
            exists|elapsed: Duration| is_report(self@, elapsed, r),
    {
        let elapsed = elapsed_since(&self.start);
        self.report(elapsed)
    }
}

/// Ends the measurement of a scope: exactly one record for a started timer, none for one
/// that was never started.
pub fn finish_scope(timer: Option<MeasureTime>) -> (r: Option<TimeRecord>)
    ensures
        r is Some <==> timer is Some,
        timer is Some ==> exists|elapsed: Duration| is_report(timer->0@, elapsed, r->0),
{
    match timer {
        Some(t) => {
            let ghost v = t@;
            let record = t.finish();
            let ghost elapsed = choose|elapsed: Duration| is_report(v, elapsed, record);
            assert(is_report(v, elapsed, record));
            let r = Some(record);
            assert(is_report(timer->0@, elapsed, r->0));
            r
        },
        None => None,
    }
}

} // verus!
