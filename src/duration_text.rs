use vstd::prelude::*;
use std::time::Duration;
use crate::decimal::{decimal, digit, digit_text, push_decimal};

verus! {

pub const SECONDS_PER_YEAR: u64 = 31_557_600;

pub const SECONDS_PER_MONTH: u64 = 2_630_016;

pub const SECONDS_PER_DAY: u64 = 86_400;

pub const SECONDS_PER_HOUR: u64 = 3_600;

pub const SECONDS_PER_MINUTE: u64 = 60;

pub const NANOS_PER_SECOND: u32 = 1_000_000_000;

/// What `Duration::as_secs` returns for a duration: its whole seconds.
pub uninterp spec fn whole_seconds_of(d: Duration) -> u64;

/// What `Duration::subsec_nanos` returns for a duration: the nanoseconds past its whole seconds.
pub uninterp spec fn subsec_nanos_of(d: Duration) -> u32;

/// Relies on `Duration::as_secs`: the whole seconds of the duration.
#[verifier::external_body]
fn whole_seconds(d: &Duration) -> (r: u64)
    ensures
        r == whole_seconds_of(*d),
{
    d.as_secs()
}

/// Relies on `Duration::subsec_nanos`: the fractional part in nanoseconds, always below one second.
#[verifier::external_body]
fn fraction_nanos(d: &Duration) -> (r: u32)
    ensures
        r == subsec_nanos_of(*d),
        r < NANOS_PER_SECOND,
{
    d.subsec_nanos()
}

/// Whether the duration `secs` s + `nanos` ns is strictly longer than `limit` whole seconds.
pub open spec fn longer_than(secs: nat, nanos: nat, limit: nat) -> bool {
    secs > limit || (secs == limit && nanos > 0)
}

/// A unit whose name takes a plural "s": nothing when the value is zero.
pub open spec fn plural_piece(value: nat, name: Seq<char>) -> Seq<Seq<char>> {
    if value == 0 {
        seq![]
    } else if value == 1 {
        seq![decimal(value) + name]
    } else {
        seq![decimal(value) + name + "s"@]
    }
}

/// A short unit: nothing when the value is zero or the unit is skipped.
pub open spec fn unit_piece(value: nat, name: Seq<char>, skip: bool) -> Seq<Seq<char>> {
    if skip || value == 0 {
        seq![]
    } else {
        seq![decimal(value) + name]
    }
}

/// A count of hundredths as a decimal number with at most two fraction digits and
/// no trailing zero in the fraction (`90` is "0.9", `195` is "1.95", `100` is "1").
pub open spec fn hundredths_text(k: nat) -> Seq<char> {
    let f = k % 100;
    if f == 0 {
        decimal(k / 100)
    } else if f % 10 == 0 {
        decimal(k / 100) + "."@ + digit(f / 10)
    } else {
        decimal(k / 100) + "."@ + digit(f / 10) + digit(f % 10)
    }
}

/// The millisecond piece: none past thirty seconds, whole milliseconds (truncated) past
/// one second, milliseconds with two decimals (truncated to hundredths) up to one second.
pub open spec fn millis_piece(secs: nat, nanos: nat) -> Seq<Seq<char>> {
    if longer_than(secs, nanos, 30) {
        seq![]
    } else if longer_than(secs, nanos, 1) {
        seq![decimal(nanos / 1_000_000) + "ms"@]
    } else {
        seq![hundredths_text(nanos / 10_000) + "ms"@]
    }
}

/// The pieces of a non-zero duration, largest unit first.
pub open spec fn pieces(secs: nat, nanos: nat) -> Seq<Seq<char>> {
    let years = secs / SECONDS_PER_YEAR as nat;
    let in_year = secs % SECONDS_PER_YEAR as nat;
    let months = in_year / SECONDS_PER_MONTH as nat;
    let in_month = in_year % SECONDS_PER_MONTH as nat;
    let days = in_month / SECONDS_PER_DAY as nat;
    let in_day = in_month % SECONDS_PER_DAY as nat;
    let hours = in_day / SECONDS_PER_HOUR as nat;
    let minutes = in_day % SECONDS_PER_HOUR as nat / SECONDS_PER_MINUTE as nat;
    let seconds = in_day % SECONDS_PER_MINUTE as nat;
    plural_piece(years, "year"@) + plural_piece(months, "month"@) + plural_piece(days, "day"@)
        + unit_piece(hours, "h"@, longer_than(secs, nanos, 30 * SECONDS_PER_DAY as nat))
        + unit_piece(minutes, "m"@, longer_than(secs, nanos, SECONDS_PER_DAY as nat))
        + unit_piece(seconds, "s"@, longer_than(secs, nanos, 3 * SECONDS_PER_HOUR as nat))
        + millis_piece(secs, nanos)
}

/// Texts joined by single spaces.
pub open spec fn joined(ps: Seq<Seq<char>>) -> Seq<char>
    decreases ps.len(),
{
    if ps.len() == 0 {
        seq![]
    } else if ps.len() == 1 {
        ps[0]
    } else {
        joined(ps.drop_last()) + " "@ + ps.last()
    }
}

/// The human-readable text of the duration `secs` s + `nanos` ns.
pub open spec fn duration_text(secs: nat, nanos: nat) -> Seq<char> {
    if secs == 0 && nanos == 0 {
        "0s"@
    } else {
        joined(pieces(secs, nanos))
    }
}

/// The human-readable text of a duration given as whole seconds and nanoseconds.
pub open spec fn text_of(d: Duration) -> Seq<char> {
    duration_text(whole_seconds_of(d) as nat, subsec_nanos_of(d) as nat)
}

/// Appends one piece to the joined text of `ps`.
fn push_piece(out: &mut String, started: &mut bool, Ghost(ps): Ghost<Seq<Seq<char>>>, piece: &String)
    requires
        old(out)@ == joined(ps),
        *old(started) == (ps.len() > 0),
    ensures
        final(out)@ == joined(ps.push(piece@)),
        *final(started),
{
    assert(ps.push(piece@).drop_last() =~= ps);
    if *started {
        out.append(" ");
    } else {
        assert(out@ + piece@ =~= piece@);
    }
    out.append(piece.as_str());
    *started = true;
}

/// Appends the piece of a unit with a plural form.
fn push_plural(out: &mut String, started: &mut bool, Ghost(ps): Ghost<Seq<Seq<char>>>, value: u64, name: &str)
    requires
        old(out)@ == joined(ps),
        *old(started) == (ps.len() > 0),
    ensures
        final(out)@ == joined(ps + plural_piece(value as nat, name@)),
        *final(started) == ((ps + plural_piece(value as nat, name@)).len() > 0),
{
    if value > 0 {
        let mut p = String::new();
        push_decimal(&mut p, value);
        p.append(name);
        if value > 1 {
            p.append("s");
        }
        assert(seq![] + decimal(value as nat) + name@ =~= decimal(value as nat) + name@);
        push_piece(out, started, Ghost(ps), &p);
        assert(ps + plural_piece(value as nat, name@) =~= ps.push(p@));
    } else {
        assert(ps + plural_piece(value as nat, name@) =~= ps);
    }
}

/// Appends the piece of a short unit unless it is skipped.
fn push_unit(
    out: &mut String,
    started: &mut bool,
    Ghost(ps): Ghost<Seq<Seq<char>>>,
    value: u64,
    name: &str,
    skip: bool,
)
    requires
        old(out)@ == joined(ps),
        *old(started) == (ps.len() > 0),
    ensures
        final(out)@ == joined(ps + unit_piece(value as nat, name@, skip)),
        *final(started) == ((ps + unit_piece(value as nat, name@, skip)).len() > 0),
{
    if !skip && value > 0 {
        let mut p = String::new();
        push_decimal(&mut p, value);
        p.append(name);
        assert(seq![] + decimal(value as nat) + name@ =~= decimal(value as nat) + name@);
        push_piece(out, started, Ghost(ps), &p);
        assert(ps + unit_piece(value as nat, name@, skip) =~= ps.push(p@));
    } else {
        assert(ps + unit_piece(value as nat, name@, skip) =~= ps);
    }
}

/// Appends a count of hundredths as a number with at most two fraction digits.
fn push_hundredths(s: &mut String, k: u64)
    ensures
        final(s)@ == old(s)@ + hundredths_text(k as nat),
{
    push_decimal(s, k / 100);
    let f = k % 100;
    if f != 0 {
        s.append(".");
        s.append(digit_text(f / 10));
        if f % 10 != 0 {
            s.append(digit_text(f % 10));
        }
    }
}

/// Appends the millisecond piece.
fn push_millis(out: &mut String, started: &mut bool, Ghost(ps): Ghost<Seq<Seq<char>>>, secs: u64, nanos: u32)
    requires
        old(out)@ == joined(ps),
        *old(started) == (ps.len() > 0),
    ensures
        final(out)@ == joined(ps + millis_piece(secs as nat, nanos as nat)),
        *final(started) == ((ps + millis_piece(secs as nat, nanos as nat)).len() > 0),
{
    if secs > 30 || (secs == 30 && nanos > 0) {
        assert(ps + millis_piece(secs as nat, nanos as nat) =~= ps);
        return;
    }
    let mut p = String::new();
    if secs > 1 || (secs == 1 && nanos > 0) {
        push_decimal(&mut p, (nanos / 1_000_000) as u64);
        assert(seq![] + decimal((nanos / 1_000_000) as nat) =~= decimal((nanos / 1_000_000) as nat));
    } else {
        push_hundredths(&mut p, (nanos / 10_000) as u64);
        assert(seq![] + hundredths_text((nanos / 10_000) as nat) =~= hundredths_text((nanos / 10_000) as nat));
    }
    p.append("ms");
    push_piece(out, started, Ghost(ps), &p);
    assert(ps + millis_piece(secs as nat, nanos as nat) =~= ps.push(p@));
}

/// Renders the duration `secs` s + `nanos` ns as human-readable text.
pub fn render_duration(secs: u64, nanos: u32) -> (r: String)
    requires
        nanos < NANOS_PER_SECOND,
    ensures
        r@ == duration_text(secs as nat, nanos as nat),
{
    let mut out = String::new();
    if secs == 0 && nanos == 0 {
        out.append("0s");
        assert(out@ =~= "0s"@);
        return out;
    }
    let years = secs / SECONDS_PER_YEAR;
    let in_year = secs % SECONDS_PER_YEAR;
    let months = in_year / SECONDS_PER_MONTH;
    let in_month = in_year % SECONDS_PER_MONTH;
    let days = in_month / SECONDS_PER_DAY;
    let in_day = in_month % SECONDS_PER_DAY;
    let hours = in_day / SECONDS_PER_HOUR;
    let minutes = in_day % SECONDS_PER_HOUR / SECONDS_PER_MINUTE;
    let seconds = in_day % SECONDS_PER_MINUTE;

    let mut started = false;
    let ghost mut ps: Seq<Seq<char>> = seq![];
    assert(out@ == joined(ps));
    push_plural(&mut out, &mut started, Ghost(ps), years, "year");
    proof { ps = ps + plural_piece(years as nat, "year"@); }
    push_plural(&mut out, &mut started, Ghost(ps), months, "month");
    proof { ps = ps + plural_piece(months as nat, "month"@); }
    push_plural(&mut out, &mut started, Ghost(ps), days, "day");
    proof { ps = ps + plural_piece(days as nat, "day"@); }
    let skip_hours = secs > 30 * SECONDS_PER_DAY || (secs == 30 * SECONDS_PER_DAY && nanos > 0);
    push_unit(&mut out, &mut started, Ghost(ps), hours, "h", skip_hours);
    proof { ps = ps + unit_piece(hours as nat, "h"@, skip_hours); }
    let skip_minutes = secs > SECONDS_PER_DAY || (secs == SECONDS_PER_DAY && nanos > 0);
    push_unit(&mut out, &mut started, Ghost(ps), minutes, "m", skip_minutes);
    proof { ps = ps + unit_piece(minutes as nat, "m"@, skip_minutes); }
    let skip_seconds = secs > 3 * SECONDS_PER_HOUR || (secs == 3 * SECONDS_PER_HOUR && nanos > 0);
    push_unit(&mut out, &mut started, Ghost(ps), seconds, "s", skip_seconds);
    proof { ps = ps + unit_piece(seconds as nat, "s"@, skip_seconds); }
    push_millis(&mut out, &mut started, Ghost(ps), secs, nanos);
    proof { ps = ps + millis_piece(secs as nat, nanos as nat); }
    assert(ps =~= pieces(secs as nat, nanos as nat));
    out
}

/// A duration paired with its human-readable rendering.
#[derive(Debug, Clone, Copy)]
pub struct FormattedDuration(Duration);

impl FormattedDuration {
    /// The duration that is rendered.
    pub closed spec fn duration(&self) -> Duration {
        self.0
    }

    /// The human-readable text of the duration.
    pub fn to_string(&self) -> (r: String)
        ensures
            r@ == text_of(self.duration()),
    {
        render_duration(whole_seconds(&self.0), fraction_nanos(&self.0))
    }
}

/// Wraps a duration for rendering.
pub fn format_duration(val: Duration) -> (r: FormattedDuration)
    ensures
        r.duration() == val,
{
    FormattedDuration(val)
}

/// The human-readable text of a duration.
pub fn human_readable_time(duration: Duration) -> (r: String)
    ensures
        r@ == text_of(duration),
{
    format_duration(duration).to_string()
}

/// Whether a text ends with the millisecond suffix "ms".
pub open spec fn ends_with_millis(t: Seq<char>) -> bool {
    t.len() >= 2 && t[t.len() - 2] == 'm' && t[t.len() - 1] == 's'
}

/// A piece that is at least two characters long and does not end with "ms".
spec fn whole_unit_text(p: Seq<char>) -> bool {
    p.len() >= 2 && !ends_with_millis(p)
}

proof fn lemma_decimal_ends_with_digit(n: nat)
    ensures
        decimal(n).len() >= 1,
        decimal(n).last() != 'm',
    decreases n,
{
    reveal_strlit("0");
    reveal_strlit("1");
    reveal_strlit("2");
    reveal_strlit("3");
    reveal_strlit("4");
    reveal_strlit("5");
    reveal_strlit("6");
    reveal_strlit("7");
    reveal_strlit("8");
    reveal_strlit("9");
    if n >= 10 {
        lemma_decimal_ends_with_digit(n / 10);
    }
}

proof fn lemma_joined_ends_with_last(ps: Seq<Seq<char>>)
    requires
        forall|i: int| 0 <= i < ps.len() ==> #[trigger] whole_unit_text(ps[i]),
    ensures
        !ends_with_millis(joined(ps)),
{
    if ps.len() > 1 {
        let j = joined(ps);
        let l = ps.last();
        assert(whole_unit_text(ps[ps.len() - 1]));
        assert(j[j.len() - 1] == l[l.len() - 1]);
        assert(j[j.len() - 2] == l[l.len() - 2]);
    } else if ps.len() == 1 {
        assert(whole_unit_text(ps[0]));
    }
}

proof fn lemma_plural_piece_whole(value: nat, name: Seq<char>)
    requires
        name == "year"@ || name == "month"@ || name == "day"@,
    ensures
        forall|i: int| 0 <= i < plural_piece(value, name).len()
            ==> #[trigger] whole_unit_text(plural_piece(value, name)[i]),
{
    reveal_strlit("year");
    reveal_strlit("month");
    reveal_strlit("day");
    reveal_strlit("s");
    lemma_decimal_ends_with_digit(value);
}

proof fn lemma_unit_piece_whole(value: nat, name: Seq<char>, skip: bool)
    requires
        name == "h"@ || name == "m"@ || name == "s"@,
    ensures
        forall|i: int| 0 <= i < unit_piece(value, name, skip).len()
            ==> #[trigger] whole_unit_text(unit_piece(value, name, skip)[i]),
{
    reveal_strlit("h");
    reveal_strlit("m");
    reveal_strlit("s");
    lemma_decimal_ends_with_digit(value);
}

proof fn lemma_concat_whole(a: Seq<Seq<char>>, b: Seq<Seq<char>>)
    requires
        forall|i: int| 0 <= i < a.len() ==> #[trigger] whole_unit_text(a[i]),
        forall|i: int| 0 <= i < b.len() ==> #[trigger] whole_unit_text(b[i]),
    ensures
        forall|i: int| 0 <= i < (a + b).len() ==> #[trigger] whole_unit_text((a + b)[i]),
{
    assert forall|i: int| 0 <= i < (a + b).len() implies #[trigger] whole_unit_text((a + b)[i]) by {
        if i >= a.len() {
            assert((a + b)[i] == b[i - a.len()]);
        }
    }
}

/// Milliseconds are shown only up to thirty seconds: the text of any longer duration
/// does not end with "ms".
pub proof fn lemma_no_millis_past_thirty_seconds(secs: nat, nanos: nat)
    requires
        nanos < NANOS_PER_SECOND,
        longer_than(secs, nanos, 30),
    ensures
        !ends_with_millis(duration_text(secs, nanos)),
        millis_piece(secs, nanos).len() == 0,
{
    let years = secs / SECONDS_PER_YEAR as nat;
    let in_year = secs % SECONDS_PER_YEAR as nat;
    let months = in_year / SECONDS_PER_MONTH as nat;
    let in_month = in_year % SECONDS_PER_MONTH as nat;
    let days = in_month / SECONDS_PER_DAY as nat;
    let in_day = in_month % SECONDS_PER_DAY as nat;
    let hours = in_day / SECONDS_PER_HOUR as nat;
    let minutes = in_day % SECONDS_PER_HOUR as nat / SECONDS_PER_MINUTE as nat;
    let seconds = in_day % SECONDS_PER_MINUTE as nat;
    let a = plural_piece(years, "year"@);
    let b = plural_piece(months, "month"@);
    let c = plural_piece(days, "day"@);
    let d = unit_piece(hours, "h"@, longer_than(secs, nanos, 30 * SECONDS_PER_DAY as nat));
    let e = unit_piece(minutes, "m"@, longer_than(secs, nanos, SECONDS_PER_DAY as nat));
    let f = unit_piece(seconds, "s"@, longer_than(secs, nanos, 3 * SECONDS_PER_HOUR as nat));
    lemma_plural_piece_whole(years, "year"@);
    lemma_plural_piece_whole(months, "month"@);
    lemma_plural_piece_whole(days, "day"@);
    lemma_unit_piece_whole(hours, "h"@, longer_than(secs, nanos, 30 * SECONDS_PER_DAY as nat));
    lemma_unit_piece_whole(minutes, "m"@, longer_than(secs, nanos, SECONDS_PER_DAY as nat));
    lemma_unit_piece_whole(seconds, "s"@, longer_than(secs, nanos, 3 * SECONDS_PER_HOUR as nat));
    lemma_concat_whole(a, b);
    lemma_concat_whole(a + b, c);
    lemma_concat_whole(a + b + c, d);
    lemma_concat_whole(a + b + c + d, e);
    lemma_concat_whole(a + b + c + d + e, f);
    assert(pieces(secs, nanos) =~= a + b + c + d + e + f);
    lemma_joined_ends_with_last(pieces(secs, nanos));
}

} // verus!
