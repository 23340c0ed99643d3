//! Spans and moments of time as the library reasons about them, and the
//! calls into `humantime` that read and write spans as text.

use vstd::prelude::*;
use vstd::string::*;

verus! {

/// One billion: nanoseconds in a second.
pub const NANOS_PER_SEC: u32 = 1_000_000_000;

/// A span of time: whole seconds and further nanoseconds.
#[derive(Clone, Copy, Debug, PartialEq, Eq, Structural)]
pub struct Span {
    pub secs: u64,
    pub nanos: u32,
}

impl Span {
    /// The length of the span in nanoseconds.
    pub open spec fn total(self) -> int {
        self.secs * 1_000_000_000 + self.nanos
    }

    /// Whether the nanoseconds stay below one second, as in `std::time::Duration`.
    pub open spec fn canonical(self) -> bool {
        self.nanos < 1_000_000_000
    }

    /// The length of the span in nanoseconds.
    pub fn total_nanos(&self) -> (n: u128)
        ensures
            n == self.total(),
    {
        assert(self.secs * 1_000_000_000 <= 18_446_744_073_709_551_615u128 * 1_000_000_000)
            by (nonlinear_arith)
            requires
                self.secs <= 18_446_744_073_709_551_615u64,
        ;
        (self.secs as u128) * 1_000_000_000 + (self.nanos as u128)
    }

    /// Whether the span has no length.
    pub fn is_zero(&self) -> (r: bool)
        ensures
            r == (self.total() == 0),
    {
        self.secs == 0 && self.nanos == 0
    }

    /// Whether this span is no longer than `other`.
    pub fn at_most(&self, other: &Span) -> (r: bool)
        ensures
            r == (self.total() <= other.total()),
    {
        self.total_nanos() <= other.total_nanos()
    }

    /// The span of a number of nanoseconds.
    pub fn from_nanos(n: u128) -> (s: Span)
        requires
            n / 1_000_000_000 <= u64::MAX,
        ensures
            s.total() == n,
            s.canonical(),
    {
        let secs = (n / 1_000_000_000) as u64;
        let nanos = (n % 1_000_000_000) as u32;
        Span { secs, nanos }
    }
}

/// The first second that `chrono` can hold: -262143-01-01T00:00:00Z.
pub const EARLIEST_SECS: i64 = -8_334_601_228_800;

/// The last second that `chrono` can hold: 262142-12-31T23:59:59Z.
pub const LATEST_SECS: i64 = 8_210_266_876_799;

/// A moment in UTC: whole seconds since the Unix epoch (negative before it)
/// and further nanoseconds.
#[derive(Clone, Copy, Debug, PartialEq, Eq, Structural)]
pub struct Moment {
    pub secs: i64,
    pub nanos: u32,
}

impl Moment {
    /// Whether the nanoseconds stay below one second.
    pub open spec fn canonical(self) -> bool {
        self.nanos < 1_000_000_000
    }

    /// Whether a `chrono::DateTime<Utc>` can hold the moment, which is so of
    /// every time that the clock or a report gives.
    pub open spec fn representable(self) -> bool {
        &&& self.canonical()
        &&& EARLIEST_SECS <= self.secs <= LATEST_SECS
    }
}

/// Whole milliseconds of a span, or `u64::MAX` where that does not fit.
pub open spec fn millis_of(span: Span) -> int {
    let ms = span.total() / 1_000_000;
    if ms <= u64::MAX {
        ms
    } else {
        u64::MAX as int
    }
}

/// A span's whole milliseconds: the largest count of milliseconds that fits
/// in the span, or `u64::MAX` where that count does not fit in a `u64`.
pub proof fn law_milliseconds_round_down(span: Span)
    ensures
        span.total() == span.secs * 1_000_000_000int + span.nanos,
        span.total() < (u64::MAX as int + 1) * 1_000_000 ==> millis_of(span) * 1_000_000
            <= span.total() < (millis_of(span) + 1) * 1_000_000,
        span.total() >= (u64::MAX as int + 1) * 1_000_000 ==> millis_of(span) == u64::MAX,
{
    let t = span.total();
    assert(t >= 0);
    let q = t / 1_000_000;
    assert(q * 1_000_000 <= t < (q + 1) * 1_000_000);
    if t < (u64::MAX as int + 1) * 1_000_000 {
        assert(q <= u64::MAX);
    } else {
        assert(q >= u64::MAX as int + 1);
    }
}

/// Whole milliseconds of a span, saturating at `u64::MAX`.
pub fn milliseconds(span: Span) -> (ms: u64)
    ensures
        ms == millis_of(span),
{
    let total = span.total_nanos();
    let ms = total / 1_000_000;
    if ms <= u64::MAX as u128 {
        ms as u64
    } else {
        u64::MAX
    }
}

/// What `humantime::parse_duration` makes of a text: whole seconds and
/// nanoseconds, or nothing where it rejects the text.
pub uninterp spec fn parsed_duration(text: Seq<char>) -> Option<(u64, u32)>;

/// The message of the error that `humantime::parse_duration` gives for a text.
pub uninterp spec fn duration_error(text: Seq<char>) -> Seq<char>;

/// What `humantime::format_duration` writes for a span of whole seconds and
/// nanoseconds.
pub uninterp spec fn duration_text(secs: u64, nanos: u32) -> Seq<char>;

/// The most that the numbers of a duration text may weigh (see
/// [`number_weight`]) for this library to read it: the largest weight that,
/// times 31,557,600 (the seconds of humantime's largest unit, the year),
/// stays below `u64::MAX`.
pub const MAX_DURATION_WEIGHT: u64 = 584_542_046_090;

/// Whether a character ends a number in a duration text, as in humantime's
/// parser: an ASCII letter or `µ`, which begin a unit, or the decimal point.
pub open spec fn ends_number(c: char) -> bool {
    ('a' <= c && c <= 'z') || ('A' <= c && c <= 'Z') || c == 'µ' || c == '.'
}

/// Reading a text from the start, the numbers in it: the weight of those
/// already ended, each weighed as one more than its value, the value of the
/// number being read, and whether one is being read. Digits build a number;
/// a character that ends numbers ends it; any other character, such as the
/// whitespace that humantime allows inside a number, leaves it open.
pub open spec fn number_scan(s: Seq<char>) -> (int, int, bool)
    decreases s.len(),
{
    if s.len() == 0 {
        (0, 0, false)
    } else {
        let (done, current, reading) = number_scan(s.drop_last());
        let c = s.last();
        if '0' <= c && c <= '9' {
            (done, current * 10 + (c as int - '0' as int), true)
        } else if ends_number(c) && reading {
            (done + current + 1, 0, false)
        } else {
            (done, current, reading)
        }
    }
}

/// The weight of the numbers of a text: the sum, over its numbers, of one
/// more than each number's value. Every number that humantime reads in a
/// text (an integer part, or the digits of a fraction) is one of these.
pub open spec fn number_weight(s: Seq<char>) -> int {
    let (done, current, reading) = number_scan(s);
    if reading {
        done + current + 1
    } else {
        done
    }
}

proof fn lemma_scan_shape(s: Seq<char>)
    ensures
        number_scan(s).0 >= 0,
        number_scan(s).1 >= 0,
        !number_scan(s).2 ==> number_scan(s).1 == 0,
    decreases s.len(),
{
    if s.len() > 0 {
        lemma_scan_shape(s.drop_last());
    }
}

proof fn lemma_weight_grows(s: Seq<char>, i: int)
    requires
        0 <= i < s.len(),
    ensures
        number_weight(s.take(i)) <= number_weight(s.take(i + 1)),
{
    assert(s.take(i + 1).drop_last() =~= s.take(i));
    lemma_scan_shape(s.take(i));
    let c = s[i];
    let current = number_scan(s.take(i)).1;
    if '0' <= c && c <= '9' {
        assert(current * 10 >= current) by (nonlinear_arith)
            requires
                current >= 0,
        ;
    }
}

proof fn lemma_weight_of_prefix(s: Seq<char>, j: int)
    requires
        0 <= j <= s.len(),
    ensures
        number_weight(s.take(j)) <= number_weight(s),
    decreases s.len() - j,
{
    if j < s.len() {
        lemma_weight_grows(s, j);
        lemma_weight_of_prefix(s, j + 1);
    } else {
        assert(s.take(j) =~= s);
    }
}

/// Whether the numbers of a duration text weigh little enough for this
/// library to read it.
pub fn duration_fits(s: &str) -> (r: bool)
    ensures
        r == (number_weight(s@) <= MAX_DURATION_WEIGHT),
{
    let len = s.unicode_len();
    let mut done: u64 = 0;
    let mut current: u64 = 0;
    let mut reading = false;
    let mut i: usize = 0;
    proof {
        assert(s@.take(0) =~= Seq::<char>::empty());
    }
    while i < len
        invariant
            len == s@.len(),
            i <= len,
            number_scan(s@.take(i as int)) == (done as int, current as int, reading),
            number_weight(s@.take(i as int)) <= MAX_DURATION_WEIGHT,
        decreases len - i,
    {
        let c = s.get_char(i);
        proof {
            assert(s@.take(i + 1).drop_last() =~= s@.take(i as int));
            assert(s@.take(i + 1).last() == c);
            lemma_scan_shape(s@.take(i as int));
            lemma_weight_grows(s@, i as int);
        }
        if '0' <= c && c <= '9' {
            let digit = (c as u32 - '0' as u32) as u64;
            let next = current * 10 + digit;
            if done as u128 + next as u128 + 1 > MAX_DURATION_WEIGHT as u128 {
                proof {
                    lemma_weight_of_prefix(s@, i + 1);
                }
                return false;
            }
            current = next;
            reading = true;
        } else if (('a' <= c && c <= 'z') || ('A' <= c && c <= 'Z') || c == 'µ' || c == '.')
            && reading {
            done = done + current + 1;
            current = 0;
            reading = false;
        }
        i = i + 1;
    }
    proof {
        assert(s@.take(len as int) =~= s@);
    }
    true
}

/// Calls `humantime::parse_duration`. The contract claims that the call
/// depends on the text alone, that the duration comes back as its whole
/// seconds and sub-second nanoseconds (below one billion, as `Duration`
/// guarantees), and that a rejection comes back as the error's message.
///
/// The parser panics where the seconds it has summed reach `u64::MAX` while
/// exactly one second of nanoseconds is carried (`add_current` then calls
/// `Duration::new(u64::MAX, 1_000_000_000)`), as on
/// `"18446744073709551615s 1000ms"`. Each term that the parser adds is worth
/// at most its integer part times the year (31,557,600 seconds), and its
/// fraction less than one more year; so the seconds summed stay within
/// [`number_weight`] times 31,557,600, which the `requires` keeps below
/// `u64::MAX`.
#[verifier::external_body]
pub(crate) fn parse_humantime(text: &str) -> (r: Result<Span, String>)
    requires
        number_weight(text@) <= MAX_DURATION_WEIGHT,
    ensures
        r is Ok <==> parsed_duration(text@) is Some,
        r matches Ok(s) ==> parsed_duration(text@) == Some((s.secs, s.nanos)),
        r matches Ok(s) ==> s.nanos < 1_000_000_000,
        r matches Err(m) ==> m@ == duration_error(text@),
{
    match humantime::parse_duration(text) {
        Ok(d) => Ok(Span { secs: d.as_secs(), nanos: d.subsec_nanos() }),
        Err(e) => Err(e.to_string()),
    }
}

/// Calls `humantime::format_duration` on the `Duration` of the span and
/// writes it out. The contract claims that the text depends on the span alone.
#[verifier::external_body]
pub(crate) fn format_span(span: Span) -> (r: String)
    requires
        span.canonical(),
    ensures
        r@ == duration_text(span.secs, span.nanos),
{
    humantime::format_duration(std::time::Duration::new(span.secs, span.nanos)).to_string()
}

} // verus!
