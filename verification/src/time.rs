//! The duration/timer model: a point-in-time start together with a planned
//! and an original length, all in whole seconds.
//!
//! A timer is a pure value; elapsed and remaining time are functions of
//! `(started_at, planned_length, now)`. Remaining time goes negative once
//! the activity is overdue; nothing here ever transitions state by itself.

use vstd::prelude::*;
use vstd::string::StringExecFns;

verus! {

/// Upper bound, in seconds, on every instant and length the engine works
/// with. Generous enough for any wall-clock timestamp while keeping all
/// the arithmetic below far away from `i64` overflow.
pub const MAX_SECS: i64 = 0x4000_0000_0000;

/// One activity's timing: when it started, how long it is currently planned
/// to run, and the length it was first given. Extension grows
/// `planned_length` in steps of `original_length`; nothing ever shrinks it.
#[derive(Clone, Copy, Debug)]
pub struct Timer {
    pub started_at: i64,
    pub planned_length: i64,
    pub original_length: i64,
}

impl Timer {
    /// Well-formedness: instants and lengths are bounded, and the planned
    /// length never falls below the original one.
    pub open spec fn wf(self) -> bool {
        &&& 0 <= self.started_at <= MAX_SECS
        &&& 0 <= self.original_length
        &&& self.original_length <= self.planned_length
        &&& self.planned_length <= MAX_SECS
    }

    pub open spec fn spec_elapsed(self, now: int) -> int {
        now - self.started_at
    }

    pub open spec fn spec_remaining(self, now: int) -> int {
        self.planned_length - self.spec_elapsed(now)
    }

    /// What one extension does: add the original length back onto the
    /// planned length, unless that would leave the bounded range, in which
    /// case the timer is unchanged.
    pub open spec fn spec_extend(self) -> Timer {
        if self.planned_length + self.original_length <= MAX_SECS {
            Timer {
                planned_length: (self.planned_length + self.original_length) as i64,
                ..self
            }
        } else {
            self
        }
    }

    pub fn new(started_at: i64, length: i64) -> (t: Timer)
        requires
            0 <= started_at <= MAX_SECS,
            0 <= length <= MAX_SECS,
        ensures
            t.wf(),
            t.started_at == started_at,
            t.planned_length == length,
            t.original_length == length,
    {
        Timer { started_at, planned_length: length, original_length: length }
    }

    /// Grow the planned length by the original length (additive: repeated
    /// extension re-applies the same original increment).
    pub fn extend(&mut self)
        requires
            old(self).wf(),
        ensures
            final(self).wf(),
            *final(self) == old(self).spec_extend(),
    {
        if self.planned_length <= MAX_SECS - self.original_length {
            self.planned_length = self.planned_length + self.original_length;
        }
    }

    /// Seconds since the timer started; negative if `now` lies before it.
    pub fn elapsed(&self, now: i64) -> (e: i64)
        requires
            self.wf(),
            0 <= now <= MAX_SECS,
        ensures
            e == self.spec_elapsed(now as int),
    {
        now - self.started_at
    }

    /// Seconds left of the planned length; negative once overdue.
    pub fn remaining(&self, now: i64) -> (r: i64)
        requires
            self.wf(),
            0 <= now <= MAX_SECS,
        ensures
            r == self.spec_remaining(now as int),
    {
        self.planned_length - self.elapsed(now)
    }

    /// Whether the planned length has fully elapsed.
    pub fn is_overdue(&self, now: i64) -> (b: bool)
        requires
            self.wf(),
            0 <= now <= MAX_SECS,
        ensures
            b == (self.spec_remaining(now as int) < 0),
    {
        self.remaining(now) < 0
    }
}

/// How far along the planned length is at `now`, in thousandths, clamped to
/// the display range `[0, 1000]`. A zero-length plan counts as fully elapsed.
pub open spec fn spec_progress_permille(t: Timer, now: int) -> int {
    if t.planned_length == 0 {
        1000
    } else if t.spec_elapsed(now) <= 0 {
        0
    } else if t.spec_elapsed(now) >= t.planned_length {
        1000
    } else {
        t.spec_elapsed(now) * 1000 / (t.planned_length as int)
    }
}

impl Timer {
    /// Percent-complete for display, expressed in thousandths of the whole.
    pub fn progress_permille(&self, now: i64) -> (p: u16)
        requires
            self.wf(),
            0 <= now <= MAX_SECS,
        ensures
            p == spec_progress_permille(*self, now as int),
            p <= 1000,
    {
        if self.planned_length == 0 {
            return 1000;
        }
        let e = self.elapsed(now);
        if e <= 0 {
            0
        } else if e >= self.planned_length {
            1000
        } else {
            let ghost ei: int = e as int;
            let ghost pi: int = self.planned_length as int;
            assert(0 <= ei * 1000 / pi < 1000) by (nonlinear_arith)
                requires
                    0 < ei < pi,
            {}
            (e * 1000 / self.planned_length) as u16
        }
    }
}

/// The timer after `n` extensions.
pub open spec fn spec_extend_n(t: Timer, n: nat) -> Timer
    decreases n,
{
    if n == 0 {
        t
    } else {
        spec_extend_n(t, (n - 1) as nat).spec_extend()
    }
}

/// Extension is additive in fixed increments: `extend` applied `n` times
/// to a timer with original length `L` grows the planned length by exactly
/// `n * L`, and touches nothing else, as long as the final length stays in
/// bounds.
pub proof fn lemma_extend_accumulates(t: Timer, n: nat)
    requires
        t.wf(),
        t.planned_length + n * t.original_length <= MAX_SECS,
    ensures
        spec_extend_n(t, n) == (Timer {
            planned_length: (t.planned_length + n * t.original_length) as i64,
            ..t
        }),
        spec_extend_n(t, n).wf(),
    decreases n,
{
    if n == 0 {
        assert(n * t.original_length == 0) by (nonlinear_arith)
            requires
                n == 0,
        {}
    } else {
        assert((n - 1) * t.original_length == n * t.original_length - t.original_length)
            by (nonlinear_arith);
        lemma_extend_accumulates(t, (n - 1) as nat);
    }
}

/// Signed division that truncates toward zero, the way whole minutes or
/// hours are carved out of a signed span of seconds.
pub open spec fn trunc_div(a: int, b: int) -> int {
    if a >= 0 {
        a / b
    } else {
        -((-a) / b)
    }
}

/// How a span of time until a due instant is displayed: the most natural
/// unit for its size, or a calendar date once it is further than two weeks
/// out. The carried value is the whole number of units, truncated toward
/// zero, negative when the due instant lies in the past.
#[derive(Clone, Copy, Debug, PartialEq, Eq, Structural)]
pub enum DueLabel {
    Seconds(i64),
    Minutes(i64),
    Hours(i64),
    Days(i64),
    Date,
}

/// Pick the display unit for a span of seconds until a due instant:
/// seconds under a minute, minutes under an hour, hours under a day,
/// days under two weeks, and a plain date beyond that.
pub fn due_label(remaining: i64) -> (l: DueLabel)
    requires
        -MAX_SECS - MAX_SECS <= remaining <= MAX_SECS + MAX_SECS,
    ensures
        -60 < remaining < 60 ==> l == DueLabel::Seconds(remaining),
        !(-60 < remaining < 60) && -3600 < remaining < 3600
            ==> l == DueLabel::Minutes(trunc_div(remaining as int, 60) as i64),
        !(-3600 < remaining < 3600) && -86400 < remaining < 86400
            ==> l == DueLabel::Hours(trunc_div(remaining as int, 3600) as i64),
        !(-86400 < remaining < 86400) && -1209600 < remaining < 1209600
            ==> l == DueLabel::Days(trunc_div(remaining as int, 86400) as i64),
        !(-1209600 < remaining < 1209600) ==> l == DueLabel::Date,
{
    let a: u64 = if remaining < 0 { (-remaining) as u64 } else { remaining as u64 };
    let neg = remaining < 0;
    if a < 60 {
        DueLabel::Seconds(remaining)
    } else if a < 3600 {
        let m = (a / 60) as i64;
        DueLabel::Minutes(if neg { -m } else { m })
    } else if a < 86400 {
        let h = (a / 3600) as i64;
        DueLabel::Hours(if neg { -h } else { h })
    } else if a < 1209600 {
        let d = (a / 86400) as i64;
        DueLabel::Days(if neg { -d } else { d })
    } else {
        DueLabel::Date
    }
}

pub open spec fn spec_is_digit(c: char) -> bool {
    '0' as int <= c as int <= '9' as int
}

pub open spec fn spec_digit_val(c: char) -> int {
    c as int - '0' as int
}

/// One step shy of a full ISO-8601 duration: the part after the leading
/// `P`, read left to right with the date/time marker, the digits gathered
/// so far, whether digits are pending a unit, and the seconds summed so
/// far. Every number must be followed by a unit (`D` before the `T`
/// marker; `H`, `M`, `S` after it), and a value that would leave the
/// bounded range refuses rather than wraps.
pub open spec fn spec_duration_tail(
    s: Seq<char>,
    in_time: bool,
    number: int,
    pending: bool,
    seconds: int,
) -> Option<int>
    decreases s.len(),
{
    if s.len() == 0 {
        if pending {
            None
        } else {
            Some(seconds)
        }
    } else {
        let c = s[0];
        if c == 'T' {
            if pending || in_time {
                None
            } else {
                spec_duration_tail(s.skip(1), true, 0, false, seconds)
            }
        } else if spec_is_digit(c) {
            let n2 = number * 10 + spec_digit_val(c);
            if n2 > MAX_SECS {
                None
            } else {
                spec_duration_tail(s.skip(1), in_time, n2, true, seconds)
            }
        } else if c == 'D' && !in_time {
            if !pending || seconds + number * 86400 > MAX_SECS {
                None
            } else {
                spec_duration_tail(s.skip(1), in_time, 0, false, seconds + number * 86400)
            }
        } else if c == 'H' && in_time {
            if !pending || seconds + number * 3600 > MAX_SECS {
                None
            } else {
                spec_duration_tail(s.skip(1), in_time, 0, false, seconds + number * 3600)
            }
        } else if c == 'M' && in_time {
            if !pending || seconds + number * 60 > MAX_SECS {
                None
            } else {
                spec_duration_tail(s.skip(1), in_time, 0, false, seconds + number * 60)
            }
        } else if c == 'S' && in_time {
            if !pending || seconds + number > MAX_SECS {
                None
            } else {
                spec_duration_tail(s.skip(1), in_time, 0, false, seconds + number)
            }
        } else {
            None
        }
    }
}

/// What an ISO-8601-style duration (`PT30M`, `PT1H30M`, `P2DT4H`) denotes,
/// in whole seconds; `None` for anything malformed or out of the bounded
/// range.
pub open spec fn spec_parse_duration(s: Seq<char>) -> Option<int> {
    if s.len() > 0 && s[0] == 'P' {
        spec_duration_tail(s.skip(1), false, 0, false, 0)
    } else {
        None
    }
}

/// Parse an ISO-8601-style duration, given as its characters, into whole
/// seconds.
pub fn parse_duration(chars: &Vec<char>) -> (r: Option<i64>)
    ensures
        match r {
            Some(v) => spec_parse_duration(chars@) == Some(v as int) && 0 <= v <= MAX_SECS,
            None => spec_parse_duration(chars@) is None,
        },
{
    if chars.len() == 0 || chars[0] != 'P' {
        return None;
    }
    let n = chars.len();
    let mut i: usize = 1;
    let mut in_time = false;
    let mut number: i64 = 0;
    let mut pending = false;
    let mut seconds: i64 = 0;
    while i < n
        invariant
            n == chars@.len(),
            1 <= i <= n,
            0 <= number <= MAX_SECS,
            0 <= seconds <= MAX_SECS,
            !pending ==> number == 0,
            spec_parse_duration(chars@) == spec_duration_tail(
                chars@.skip(i as int),
                in_time,
                number as int,
                pending,
                seconds as int,
            ),
        decreases n - i,
    {
        proof {
            assert(chars@.skip(i as int)[0] == chars@[i as int]);
            assert(chars@.skip(i as int).skip(1) =~= chars@.skip(i as int + 1));
        }
        let c = chars[i];
        if c == 'T' {
            if pending || in_time {
                return None;
            }
            in_time = true;
        } else if '0' <= c && c <= '9' {
            let d = (c as u32 - '0' as u32) as i64;
            if number > (MAX_SECS - d) / 10 {
                proof {
                    let n2 = number * 10 + spec_digit_val(c);
                    assert(n2 > MAX_SECS) by (nonlinear_arith)
                        requires
                            number > (MAX_SECS - d) / 10,
                            d == spec_digit_val(c),
                            0 <= d <= 9,
                            n2 == number * 10 + spec_digit_val(c),
                            0 <= number,
                    {}
                }
                return None;
            }
            proof {
                assert(number * 10 + d <= MAX_SECS) by (nonlinear_arith)
                    requires
                        0 <= number <= (MAX_SECS - d) / 10,
                        0 <= d <= 9,
                {}
            }
            number = number * 10 + d;
            pending = true;
        } else if c == 'D' && !in_time {
            if !pending || seconds > MAX_SECS - number * 86400 {
                return None;
            }
            seconds = seconds + number * 86400;
            number = 0;
            pending = false;
        } else if c == 'H' && in_time {
            if !pending || seconds > MAX_SECS - number * 3600 {
                return None;
            }
            seconds = seconds + number * 3600;
            number = 0;
            pending = false;
        } else if c == 'M' && in_time {
            if !pending || seconds > MAX_SECS - number * 60 {
                return None;
            }
            seconds = seconds + number * 60;
            number = 0;
            pending = false;
        } else if c == 'S' && in_time {
            if !pending || seconds > MAX_SECS - number {
                return None;
            }
            seconds = seconds + number;
            number = 0;
            pending = false;
        } else {
            return None;
        }
        i = i + 1;
    }
    if pending {
        None
    } else {
        Some(seconds)
    }
}

/// The character for one decimal digit.
pub open spec fn digit_char(d: int) -> char {
    if d == 0 { '0' }
    else if d == 1 { '1' }
    else if d == 2 { '2' }
    else if d == 3 { '3' }
    else if d == 4 { '4' }
    else if d == 5 { '5' }
    else if d == 6 { '6' }
    else if d == 7 { '7' }
    else if d == 8 { '8' }
    else { '9' }
}

/// The decimal rendering of a natural number, most significant digit first.
pub open spec fn spec_decimal(n: nat) -> Seq<char>
    decreases n,
{
    if n < 10 {
        seq![digit_char(n as int)]
    } else {
        spec_decimal(n / 10) + seq![digit_char((n % 10) as int)]
    }
}

/// A number of seconds below one minute, always rendered with two digits.
pub open spec fn spec_two_digits(s: nat) -> Seq<char> {
    if s < 10 {
        seq!['0', digit_char(s as int)]
    } else {
        spec_decimal(s)
    }
}

/// The countdown label for a remaining span: whole minutes, a colon, the
/// leftover seconds zero-padded to two digits, and a leading minus sign
/// when the span is negative (overdue).
pub open spec fn spec_format_remaining(r: int) -> Seq<char> {
    let a: nat = if r < 0 { (-r) as nat } else { r as nat };
    let sign: Seq<char> = if r < 0 { seq!['-'] } else { Seq::empty() };
    sign + spec_decimal(a / 60) + seq![':'] + spec_two_digits(a % 60)
}

/// One decimal digit as a string slice.
fn digit_str(d: u64) -> (r: &'static str)
    requires
        d < 10,
    ensures
        r@ == seq![digit_char(d as int)],
{
    proof {
        reveal_strlit("0");
        reveal_strlit("1");
        reveal_strlit("2");
        reveal_strlit("3");
        reveal_strlit("4");
        reveal_strlit("5");
        reveal_strlit("6");
        reveal_strlit("7");
        reveal_strlit("8");
        reveal_strlit("9");
    }
    let r: &'static str = if d == 0 { "0" }
    else if d == 1 { "1" }
    else if d == 2 { "2" }
    else if d == 3 { "3" }
    else if d == 4 { "4" }
    else if d == 5 { "5" }
    else if d == 6 { "6" }
    else if d == 7 { "7" }
    else if d == 8 { "8" }
    else { "9" };
    proof {
        assert(r@ =~= seq![digit_char(d as int)]);
    }
    r
}

/// Render a number in decimal.
pub fn u64_to_string(n: u64) -> (r: String)
    ensures
        r@ == spec_decimal(n as nat),
    decreases n,
{
    if n < 10 {
        digit_str(n).to_owned()
    } else {
        let mut s = u64_to_string(n / 10);
        s.append(digit_str(n % 10));
        proof {
            assert(s@ =~= spec_decimal(n as nat));
        }
        s
    }
}

/// Render the countdown label for a remaining span of seconds, as
/// `minutes:seconds` with a leading sign when negative.
pub fn format_remaining(remaining: i64) -> (r: String)
    requires
        -MAX_SECS - MAX_SECS <= remaining <= MAX_SECS + MAX_SECS,
    ensures
        r@ == spec_format_remaining(remaining as int),
{
    proof {
        reveal_strlit("-");
        reveal_strlit("");
        reveal_strlit(":");
    }
    let neg = remaining < 0;
    let a: u64 = if neg { (-remaining) as u64 } else { remaining as u64 };
    let mut s: String = if neg { "-".to_owned() } else { "".to_owned() };
    s.append(u64_to_string(a / 60).as_str());
    s.append(":");
    if a % 60 < 10 {
        s.append("0");
        proof {
            reveal_strlit("0");
        }
    }
    s.append(u64_to_string(a % 60).as_str());
    proof {
        assert(s@ =~= spec_format_remaining(remaining as int));
    }
    s
}

} // verus!
