use vstd::prelude::*;
use chrono::TimeZone;
use crate::text::{is_space, char_is_space};

verus! {

/// How far from the Unix epoch, in milliseconds, an instant may lie for the
/// schedule parser to be asked about it: about 253,500 years either way, so
/// that the parser's look-ahead of a few years stays within the dates chrono
/// can hold.
pub const CLOCK_LIMIT_MS: i64 = 8000000000000000;

/// Whether the schedule parser can be asked about an instant (milliseconds
/// since the Unix epoch).
pub open spec fn clock_in_range(ms: int) -> bool {
    -CLOCK_LIMIT_MS <= ms <= CLOCK_LIMIT_MS
}

/// Whether the schedule parser can be asked about an instant.
pub fn clock_in_range_ms(ms: i64) -> (r: bool)
    ensures
        r == clock_in_range(ms as int),
{
    -CLOCK_LIMIT_MS <= ms && ms <= CLOCK_LIMIT_MS
}

/// The number of fields in `s`: the runs of characters between white space
/// (Unicode's `White_Space`, as `str::split_whitespace` splits).
pub open spec fn field_count(s: Seq<char>) -> nat
    decreases s.len(),
{
    if s.len() == 0 {
        0
    } else {
        field_count(s.drop_last()) + (if !is_space(s.last()) && (s.len() == 1 || is_space(
            s[s.len() - 2],
        )) {
            1nat
        } else {
            0nat
        })
    }
}

/// Whether a list element of a field starts at `p`: at the start of the
/// text, after a comma, or after white space.
pub open spec fn element_start(s: Seq<char>, p: int) -> bool {
    p == 0 || s[p - 1] == ',' || is_space(s[p - 1])
}

/// Whether a list element ends at `e`: at the end of the text, at a comma,
/// or at white space.
pub open spec fn element_end(s: Seq<char>, e: int) -> bool {
    e == s.len() || s[e] == ',' || is_space(s[e])
}

/// Where the run of `*/` pairs that starts at `p` ends.
pub open spec fn strip_end(s: Seq<char>, p: int) -> int
    decreases s.len() - p,
{
    if 0 <= p && p + 1 < s.len() && s[p] == '*' && s[p + 1] == '/' {
        strip_end(s, p + 2)
    } else {
        p
    }
}

/// Where the run of `0` characters that starts at `q` ends.
pub open spec fn zero_run_end(s: Seq<char>, q: int) -> int
    decreases s.len() - q,
{
    if 0 <= q && q < s.len() && s[q] == '0' {
        zero_run_end(s, q + 1)
    } else {
        q
    }
}

/// Whether the list element at `p` is a step of zero: one or more `*/`
/// followed by a number that reads as 0 (an optional `+`, then only `0`s).
/// The parser steps through the values by that number, and a step of zero
/// makes it fail hard.
pub open spec fn zero_step_at(s: Seq<char>, p: int) -> bool {
    let q = strip_end(s, p);
    let q1 = if q < s.len() && s[q] == '+' {
        q + 1
    } else {
        q
    };
    let e = zero_run_end(s, q1);
    &&& element_start(s, p)
    &&& q >= p + 2
    &&& e > q1
    &&& element_end(s, e)
}

/// Whether the schedule parser can be asked about `s` without failing hard:
/// at least five white-space-separated fields (it reads the first five
/// without checking that they are there), and no step of zero. On any other
/// text the parser either refuses the schedule or fails hard; it never names
/// an instant.
pub open spec fn cron_text_supported(s: Seq<char>) -> bool {
    &&& field_count(s) >= 5
    &&& forall|p: int| 0 <= p < s.len() ==> !#[trigger] zero_step_at(s, p)
}

/// What the schedule `text` names after `after_ms`: the parser's answer
/// where it can be asked, nothing otherwise.
pub open spec fn cron_schedule(text: Seq<char>, after_ms: int) -> Option<int> {
    if cron_text_supported(text) {
        cron_next(text, after_ms)
    } else {
        None
    }
}

proof fn lemma_field_count_step(s: Seq<char>, i: int)
    requires
        0 <= i < s.len(),
    ensures
        field_count(s.take(i + 1)) == field_count(s.take(i)) + (if !is_space(s[i]) && (i == 0
            || is_space(s[i - 1])) {
            1nat
        } else {
            0nat
        }),
{
    let t = s.take(i + 1);
    assert(t.drop_last() =~= s.take(i));
    assert(t.last() == s[i]);
    if i > 0 {
        assert(t[t.len() - 2] == s[i - 1]);
    }
}

fn strip_end_exec(s: &str, n: usize, p: usize) -> (r: usize)
    requires
        n == s@.len(),
        p <= n,
    ensures
        r == strip_end(s@, p as int),
        p <= r <= n,
{
    let mut j = p;
    while j < n && j + 1 < n && s.get_char(j) == '*' && s.get_char(j + 1) == '/'
        invariant
            n == s@.len(),
            p <= j <= n,
            strip_end(s@, p as int) == strip_end(s@, j as int),
        decreases n - j,
    {
        j = j + 2;
    }
    j
}

fn zero_run_end_exec(s: &str, n: usize, q: usize) -> (r: usize)
    requires
        n == s@.len(),
        q <= n,
    ensures
        r == zero_run_end(s@, q as int),
        q <= r <= n,
{
    let mut e = q;
    while e < n && s.get_char(e) == '0'
        invariant
            n == s@.len(),
            q <= e <= n,
            zero_run_end(s@, q as int) == zero_run_end(s@, e as int),
        decreases n - e,
    {
        e = e + 1;
    }
    e
}

fn zero_step_at_exec(s: &str, n: usize, p: usize) -> (r: bool)
    requires
        n == s@.len(),
        p < n,
    ensures
        r == zero_step_at(s@, p as int),
{
    let starts = p == 0 || s.get_char(p - 1) == ',' || char_is_space(s.get_char(p - 1));
    if !starts {
        return false;
    }
    let q = strip_end_exec(s, n, p);
    if q - p < 2 {
        return false;
    }
    let q1 = if q < n && s.get_char(q) == '+' {
        q + 1
    } else {
        q
    };
    let e = zero_run_end_exec(s, n, q1);
    e > q1 && (e == n || s.get_char(e) == ',' || char_is_space(s.get_char(e)))
}

/// Whether the schedule text `s` is one the parser can be asked about.
pub fn cron_text_is_supported(s: &str) -> (r: bool)
    ensures
        r == cron_text_supported(s@),
{
    let n = s.unicode_len();
    let mut i: usize = 0;
    let mut fields: usize = 0;
    assert(s@.take(0) =~= Seq::<char>::empty());
    while i < n
        invariant
            n == s@.len(),
            i <= n,
            fields == field_count(s@.take(i as int)),
            fields <= i,
            forall|p: int| 0 <= p < i ==> !#[trigger] zero_step_at(s@, p),
        decreases n - i,
    {
        if zero_step_at_exec(s, n, i) {
            return false;
        }
        let c = s.get_char(i);
        let starts = !char_is_space(c) && (i == 0 || char_is_space(s.get_char(i - 1)));
        proof {
            lemma_field_count_step(s@, i as int);
        }
        if starts {
            fields = fields + 1;
        }
        i = i + 1;
    }
    assert(s@.take(n as int) =~= s@);
    fields >= 5
}

/// Name for what `cron_parser::parse` gives for the schedule `text` and the
/// instant `after_ms` (milliseconds since the Unix epoch) seen in Seoul's
/// time zone: the next instant the schedule names, in milliseconds, or
/// nothing where the schedule is refused.
pub uninterp spec fn cron_next(text: Seq<char>, after_ms: int) -> Option<int>;

/// Calls `cron_parser::parse` with `text` and the instant `after_ms` in
/// Seoul's time zone. The contract claims only that the result, taken as a
/// timestamp in milliseconds, is what `cron_next` names; which instant that
/// is the schedule's syntax decides, and is not written out here. The parser
/// indexes the first five fields and steps through values by the step given
/// without checks, so texts with fewer than five fields or a step of zero
/// (outside `cron_text_supported`) are not admitted.
#[verifier::external_body]
fn cron_next_after(text: &str, after_ms: i64) -> (r: Option<i64>)
    requires
        cron_text_supported(text@),
        clock_in_range(after_ms as int),
    ensures
        match r {
            Some(n) => cron_next(text@, after_ms as int) == Some(n as int),
            None => cron_next(text@, after_ms as int) is None,
        },
{
    let at = chrono::Utc.timestamp_millis_opt(after_ms).unwrap().with_timezone(
        &chrono_tz::Asia::Seoul,
    );
    match cron_parser::parse(text, &at) {
        Ok(next) => Some(next.timestamp_millis()),
        Err(_) => None,
    }
}

/// The instant `interval_s` seconds after `last_ms`.
pub open spec fn interval_deadline_spec(last_ms: int, interval_s: int) -> int {
    last_ms + interval_s * 1000
}

/// The instant `interval_s` seconds after `last_ms`, in milliseconds.
pub fn interval_deadline(last_ms: i64, interval_s: i64) -> (r: i128)
    ensures
        r == interval_deadline_spec(last_ms as int, interval_s as int),
{
    (last_ms as i128) + (interval_s as i128) * 1000
}

/// When the next update check is due: the schedule's next instant where
/// the schedule is used and names one, otherwise `interval_s` seconds after
/// the last check.
pub open spec fn update_deadline(
    last_ms: int,
    use_cron: bool,
    interval_s: int,
    cron: Option<int>,
) -> int {
    if use_cron && cron is Some {
        cron->0
    } else {
        interval_deadline_spec(last_ms, interval_s)
    }
}

/// Whether the next update check is due at `now_ms`, the last one having
/// run at `last_ms`. Where the schedule is used but names no instant (the
/// parser refuses it, or cannot be asked about it), the interval applies.
pub fn check_next_update_time(
    last_ms: i64,
    update_use_cron: bool,
    update_interval: i64,
    update_cron_text: &str,
    now_ms: i64,
) -> (r: bool)
    requires
        update_use_cron ==> clock_in_range(last_ms as int),
    ensures
        r == (update_deadline(
            last_ms as int,
            update_use_cron,
            update_interval as int,
            if update_use_cron {
                cron_schedule(update_cron_text@, last_ms as int)
            } else {
                None
            },
        ) < now_ms),
{
    let mut next = interval_deadline(last_ms, update_interval);
    if update_use_cron && cron_text_is_supported(update_cron_text) {
        match cron_next_after(update_cron_text, last_ms) {
            Some(c) => {
                next = c as i128;
            },
            None => {},
        }
    }
    next < now_ms as i128
}

/// Whether the next health check is due at `now_ms`, the last one having
/// run at `last_ms`.
pub fn health_check_time(last_ms: i64, health_check_interval: i64, now_ms: i64) -> (r: bool)
    ensures
        r == (interval_deadline_spec(last_ms as int, health_check_interval as int) < now_ms),
{
    interval_deadline(last_ms, health_check_interval) < now_ms as i128
}


/// When the controller last checked for updates and health, and how often it does.
pub struct ControlClock {
    last_update_ms: i64,
    last_health_ms: i64,
    update_use_cron: bool,
    update_interval: i64,
    update_cron_text: String,
    health_check_interval: i64,
}

pub struct ControlClockView {
    pub last_update_ms: int,
    pub last_health_ms: int,
    pub update_use_cron: bool,
    pub update_interval: int,
    pub update_cron_text: Seq<char>,
    pub health_check_interval: int,
}

impl View for ControlClock {
    type V = ControlClockView;

    closed spec fn view(&self) -> ControlClockView {
        ControlClockView {
            last_update_ms: self.last_update_ms as int,
            last_health_ms: self.last_health_ms as int,
            update_use_cron: self.update_use_cron,
            update_interval: self.update_interval as int,
            update_cron_text: self.update_cron_text@,
            health_check_interval: self.health_check_interval as int,
        }
    }
}

/// The deadline of the next update check that a clock state names.
pub open spec fn next_update_deadline(c: ControlClockView) -> int {
    update_deadline(
        c.last_update_ms,
        c.update_use_cron,
        c.update_interval,
        if c.update_use_cron {
            cron_schedule(c.update_cron_text, c.last_update_ms)
        } else {
            None
        },
    )
}

/// The deadline of the next health check that a clock state names.
pub open spec fn next_health_deadline(c: ControlClockView) -> int {
    c.last_health_ms + c.health_check_interval * 1000
}

impl ControlClock {
    /// A clock whose checks last ran at `now_ms`, with the configured
    /// schedule, intervals and schedule text.
    pub fn new(
        update_use_cron: bool,
        update_interval: i64,
        update_cron_text: String,
        health_check_interval: i64,
        now_ms: i64,
    ) -> (r: ControlClock)
        ensures
            r@ == (ControlClockView {
                last_update_ms: now_ms as int,
                last_health_ms: now_ms as int,
                update_use_cron: update_use_cron,
                update_interval: update_interval as int,
                update_cron_text: update_cron_text@,
                health_check_interval: health_check_interval as int,
            }),
    {
        ControlClock {
            last_update_ms: now_ms,
            last_health_ms: now_ms,
            update_use_cron,
            update_interval,
            update_cron_text,
            health_check_interval,
        }
    }

    /// When the last update check ran.
    pub fn last_update_ms(&self) -> (r: i64)
        ensures
            r as int == self@.last_update_ms,
    {
        self.last_update_ms
    }

    /// Whether an update check is due at `now_ms`; when it is, the check
    /// counts as done at `now_ms`. With a schedule, the last check must lie
    /// where the schedule parser can be asked about it.
    pub fn update_due(&mut self, now_ms: i64) -> (r: bool)
        requires
            old(self)@.update_use_cron ==> clock_in_range(old(self)@.last_update_ms),
        ensures
            r == (next_update_deadline(old(self)@) < now_ms),
            final(self)@ == (if r {
                ControlClockView { last_update_ms: now_ms as int, ..old(self)@ }
            } else {
                old(self)@
            }),
    {
        let due = check_next_update_time(
            self.last_update_ms,
            self.update_use_cron,
            self.update_interval,
            self.update_cron_text.as_str(),
            now_ms,
        );
        if due {
            self.last_update_ms = now_ms;
        }
        due
    }

    /// Whether a health check is due at `now_ms`; when it is, the check
    /// counts as done at `now_ms`.
    pub fn health_due(&mut self, now_ms: i64) -> (r: bool)
        ensures
            r == (next_health_deadline(old(self)@) < now_ms),
            final(self)@ == (if r {
                ControlClockView { last_health_ms: now_ms as int, ..old(self)@ }
            } else {
                old(self)@
            }),
    {
        let due = health_check_time(self.last_health_ms, self.health_check_interval, now_ms);
        if due {
            self.last_health_ms = now_ms;
        }
        due
    }
}

} // verus!
