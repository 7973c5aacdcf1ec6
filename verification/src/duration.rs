//! Tri-state time values and their native sentinel encoding.
//!
//! The native middleware encodes a duration as a signed 64-bit nanosecond
//! count whose two extreme values are reserved: the minimum means "not set"
//! and the maximum means "wait forever". [`Duration`] keeps the three states
//! apart as a tagged value and converts losslessly to and from that encoding.

use vstd::prelude::*;
use vstd::std_specs::cmp::PartialOrdSpec;
use vstd::string::*;

verus! {

/// The native sentinel for a duration that is not set or not applicable.
pub const DURATION_INVALID: i64 = i64::MIN;

/// The native sentinel for an unbounded duration ("wait forever").
pub const DURATION_INFINITE: i64 = i64::MAX;

/// A time value with exactly one of three states: not set, unbounded, or a
/// finite signed nanosecond count. The three states partition the native
/// signed 64-bit domain at the two sentinel endpoints, so a well-formed
/// finite count never equals either sentinel.
#[derive(Debug, Clone, Copy, PartialEq, Eq, Structural, Hash)]
pub enum Duration {
    /// Not set / not applicable; encoded as the minimum sentinel.
    Invalid,
    /// No limit; encoded as the maximum sentinel.
    Infinite,
    /// A signed nanosecond count, possibly negative.
    Finite(i64),
}

impl Duration {
    /// A finite nanosecond count stays strictly between the two sentinels.
    pub open spec fn wf(self) -> bool {
        self matches Duration::Finite(n) ==> DURATION_INVALID < n < DURATION_INFINITE
    }

    /// The state that the native encoding `raw` denotes.
    pub open spec fn from_raw_spec(raw: i64) -> Duration {
        if raw == DURATION_INVALID {
            Duration::Invalid
        } else if raw == DURATION_INFINITE {
            Duration::Infinite
        } else {
            Duration::Finite(raw)
        }
    }

    /// The native encoding of this value.
    pub open spec fn to_raw_spec(self) -> i64 {
        match self {
            Duration::Invalid => DURATION_INVALID,
            Duration::Infinite => DURATION_INFINITE,
            Duration::Finite(n) => n,
        }
    }

    /// Decodes a native duration. Total: the minimum sentinel yields
    /// `Invalid`, the maximum sentinel yields `Infinite`, and every other
    /// value yields the finite count itself.
    pub fn from_raw(raw: i64) -> (d: Duration)
        ensures
            d == Duration::from_raw_spec(raw),
            d.wf(),
            d.to_raw_spec() == raw,
    {
        if raw == DURATION_INVALID {
            Duration::Invalid
        } else if raw == DURATION_INFINITE {
            Duration::Infinite
        } else {
            Duration::Finite(raw)
        }
    }

    /// Encodes this value natively, reproducing the exact sentinels.
    /// The inverse of [`Duration::from_raw`] on well-formed values.
    pub fn to_raw(&self) -> (raw: i64)
        requires
            self.wf(),
        ensures
            raw == self.to_raw_spec(),
            Duration::from_raw_spec(raw) == *self,
    {
        match *self {
            Duration::Invalid => DURATION_INVALID,
            Duration::Infinite => DURATION_INFINITE,
            Duration::Finite(n) => n,
        }
    }

    /// Returns the unbounded duration.
    pub fn infinite() -> (d: Duration)
        ensures
            d == Duration::Infinite,
    {
        Duration::Infinite
    }

    /// Returns the not-set duration.
    pub fn invalid() -> (d: Duration)
        ensures
            d == Duration::Invalid,
    {
        Duration::Invalid
    }

    /// A finite duration of `nanos` nanoseconds. The count must stay
    /// strictly between the two sentinels.
    pub fn from_nanos(nanos: i64) -> (d: Duration)
        requires
            DURATION_INVALID < nanos < DURATION_INFINITE,
        ensures
            d == Duration::Finite(nanos),
            d.wf(),
            d.to_raw_spec() == nanos,
    {
        Duration::Finite(nanos)
    }

    /// A finite duration of `micros` microseconds. The nanosecond count
    /// must not overflow the native width.
    pub fn from_micros(micros: i64) -> (d: Duration)
        requires
            -9_223_372_036_854_775 <= micros <= 9_223_372_036_854_775,
        ensures
            d == Duration::Finite((micros * 1000) as i64),
            d.wf(),
    {
        Duration::Finite(micros * 1000)
    }

    /// A finite duration of `millis` milliseconds. The nanosecond count
    /// must not overflow the native width.
    pub fn from_millis(millis: i64) -> (d: Duration)
        requires
            -9_223_372_036_854 <= millis <= 9_223_372_036_854,
        ensures
            d == Duration::Finite((millis * 1_000_000) as i64),
            d.wf(),
    {
        Duration::Finite(millis * 1_000_000)
    }

    /// A finite duration of `secs` seconds. The nanosecond count must not
    /// overflow the native width.
    pub fn from_secs(secs: i64) -> (d: Duration)
        requires
            -9_223_372_036 <= secs <= 9_223_372_036,
        ensures
            d == Duration::Finite((secs * 1_000_000_000) as i64),
            d.wf(),
    {
        Duration::Finite(secs * 1_000_000_000)
    }

    /// A finite duration of `mins` minutes. The nanosecond count must not
    /// overflow the native width.
    pub fn from_minutes(mins: i64) -> (d: Duration)
        requires
            -153_722_867 <= mins <= 153_722_867,
        ensures
            d == Duration::Finite((mins * 60_000_000_000) as i64),
            d.wf(),
    {
        Duration::Finite(mins * 60_000_000_000)
    }

    /// A finite duration of `hrs` hours. The nanosecond count must not
    /// overflow the native width.
    pub fn from_hours(hrs: i64) -> (d: Duration)
        requires
            -2_562_047 <= hrs <= 2_562_047,
        ensures
            d == Duration::Finite((hrs * 3_600_000_000_000) as i64),
            d.wf(),
    {
        Duration::Finite(hrs * 3_600_000_000_000)
    }

    /// Returns `true` if the duration is [`Finite`].
    ///
    /// [`Finite`]: Duration::Finite
    pub fn is_finite(&self) -> (r: bool)
        ensures
            r == (*self is Finite),
    {
        match *self {
            Duration::Finite(_) => true,
            _ => false,
        }
    }

    /// Returns `true` if the duration is [`Infinite`].
    ///
    /// [`Infinite`]: Duration::Infinite
    pub fn is_infinite(&self) -> (r: bool)
        ensures
            r == (*self is Infinite),
    {
        match *self {
            Duration::Infinite => true,
            _ => false,
        }
    }

    /// Returns `true` if the duration is [`Invalid`].
    ///
    /// [`Invalid`]: Duration::Invalid
    pub fn is_invalid(&self) -> (r: bool)
        ensures
            r == (*self is Invalid),
    {
        match *self {
            Duration::Invalid => true,
            _ => false,
        }
    }
}

/// Decoding the full native domain and encoding back is the identity, and
/// the three states split that domain exactly at the sentinel endpoints.
pub proof fn lemma_raw_round_trip(raw: i64)
    ensures
        Duration::from_raw_spec(raw).to_raw_spec() == raw,
        Duration::from_raw_spec(raw) is Invalid <==> raw == DURATION_INVALID,
        Duration::from_raw_spec(raw) is Infinite <==> raw == DURATION_INFINITE,
        Duration::from_raw_spec(raw) is Finite <==> DURATION_INVALID < raw < DURATION_INFINITE,
{
}

/// Encoding a well-formed value and decoding again restores it, so no
/// finite count is ever mistaken for a sentinel.
pub proof fn lemma_value_round_trip(d: Duration)
    requires
        d.wf(),
    ensures
        Duration::from_raw_spec(d.to_raw_spec()) == d,
{
}

impl PartialOrd for Duration {
    /// A strict partial order: `Invalid` is unordered against everything,
    /// itself included; `Infinite` exceeds every finite value and equals
    /// itself; finite values compare by nanosecond count.
    fn partial_cmp(&self, other: &Self) -> (r: Option<core::cmp::Ordering>) {
        match (self, other) {
            (Duration::Invalid, _) => None,
            (_, Duration::Invalid) => None,
            (Duration::Finite(a), Duration::Finite(b)) => {
                if a < b {
                    Some(core::cmp::Ordering::Less)
                } else if a == b {
                    Some(core::cmp::Ordering::Equal)
                } else {
                    Some(core::cmp::Ordering::Greater)
                }
            },
            (Duration::Finite(_), Duration::Infinite) => Some(core::cmp::Ordering::Less),
            (Duration::Infinite, Duration::Finite(_)) => Some(core::cmp::Ordering::Greater),
            (Duration::Infinite, Duration::Infinite) => Some(core::cmp::Ordering::Equal),
        }
    }
}

impl vstd::std_specs::cmp::PartialOrdSpecImpl for Duration {
    open spec fn obeys_partial_cmp_spec() -> bool {
        true
    }

    open spec fn partial_cmp_spec(&self, other: &Self) -> Option<core::cmp::Ordering> {
        match (*self, *other) {
            (Duration::Invalid, _) => None,
            (_, Duration::Invalid) => None,
            (Duration::Finite(a), Duration::Finite(b)) => if a < b {
                Some(core::cmp::Ordering::Less)
            } else if a == b {
                Some(core::cmp::Ordering::Equal)
            } else {
                Some(core::cmp::Ordering::Greater)
            },
            (Duration::Finite(_), Duration::Infinite) => Some(core::cmp::Ordering::Less),
            (Duration::Infinite, Duration::Finite(_)) => Some(core::cmp::Ordering::Greater),
            (Duration::Infinite, Duration::Infinite) => Some(core::cmp::Ordering::Equal),
        }
    }
}

/// The human-readable text of a nonnegative span of `secs` whole seconds
/// plus `nanos` subsecond nanoseconds, as the formatting routine writes it.
pub uninterp spec fn human_text(secs: u64, nanos: u32) -> Seq<char>;

/// What the human-readable duration grammar accepts: `None` where the text
/// does not parse, else the whole seconds and subsecond nanoseconds it
/// denotes.
pub uninterp spec fn human_parse(s: Seq<char>) -> Option<(u64, u32)>;

/// Relies on humantime::format_duration: the text depends on the seconds
/// and nanoseconds alone; it is never empty and opens with a decimal digit
/// (either `"0s"` or a number-and-unit item); and its documentation
/// guarantees that humantime::parse_duration reads the same value back.
#[verifier::external_body]
fn format_human(secs: u64, nanos: u32) -> (r: String)
    requires
        nanos < 1_000_000_000,
    ensures
        r@ == human_text(secs, nanos),
        r@.len() > 0,
        '0' <= r@[0] <= '9',
        human_parse(r@) == Some((secs, nanos)),
{
    humantime::format_duration(std::time::Duration::new(secs, nanos)).to_string()
}

/// A failed attempt to read a [`Duration`] from text: the offending input
/// together with the underlying reason.
#[derive(Debug, Clone, PartialEq, Eq)]
pub struct ParseError {
    /// The text that was rejected.
    pub input: String,
    /// Why it was rejected.
    pub detail: String,
}

/// The text form of a well-formed duration: the literal `"invalid"`, the
/// literal `"infinite"`, or a human-readable span of the absolute
/// nanosecond count with a leading `'-'` when the count is negative.
pub open spec fn duration_text(d: Duration) -> Seq<char>
    recommends
        d.wf(),
{
    match d {
        Duration::Invalid => "invalid"@,
        Duration::Infinite => "infinite"@,
        Duration::Finite(n) => if n >= 0 {
            human_text((n / 1_000_000_000) as u64, (n % 1_000_000_000) as u32)
        } else {
            "-"@ + human_text(((-n) / 1_000_000_000) as u64, ((-n) % 1_000_000_000) as u32)
        },
    }
}

/// The span of `s` that the human-readable grammar reads: all of it, or
/// everything after the leading sign.
pub open spec fn parsed_span(s: Seq<char>, negative: bool) -> Seq<char> {
    if negative {
        s.subrange(1, s.len() as int)
    } else {
        s
    }
}

/// The duration a parsed span denotes: the seconds-and-nanoseconds pair as
/// one count, negated when the sign said so, and rejected when the count
/// would reach a sentinel — or nothing, where the grammar read nothing.
pub open spec fn span_duration(negative: bool, p: Option<(u64, u32)>) -> Option<Duration> {
    match p {
        Some(p) => {
            let total = p.0 * 1_000_000_000 + p.1;
            if negative {
                if total <= DURATION_INFINITE {
                    Some(Duration::Finite((-total) as i64))
                } else {
                    None
                }
            } else {
                if total < DURATION_INFINITE {
                    Some(Duration::Finite(total as i64))
                } else {
                    None
                }
            }
        },
        None => None,
    }
}

/// The value, if any, that a span outcome carries.
pub open spec fn span_value(o: Result<(u64, u32), String>) -> Option<(u64, u32)> {
    match o {
        Ok(p) => Some(p),
        Err(_) => None,
    }
}

/// The duration, if any, that the text `s` denotes: one of the two literal
/// forms, or an optionally negated human-readable span whose nanosecond
/// count stays strictly inside the native sentinels.
pub open spec fn duration_from_text(s: Seq<char>) -> Option<Duration> {
    if s == "invalid"@ {
        Some(Duration::Invalid)
    } else if s == "infinite"@ {
        Some(Duration::Infinite)
    } else if s.len() > 0 && s[0] == '-' {
        span_duration(true, human_parse(parsed_span(s, true)))
    } else {
        span_duration(false, human_parse(parsed_span(s, false)))
    }
}

impl Duration {
    /// Writes this duration as text: `"invalid"`, `"infinite"`, or a
    /// human-readable span with a leading `'-'` for a negative count.
    /// The text always parses back to the same value (the text round
    /// trip), so no well-formed duration is lost in print-then-read.
    pub fn format_text(&self) -> (r: String)
        requires
            self.wf(),
        ensures
            r@ == duration_text(*self),
            duration_from_text(r@) == Some(*self),
    {
        proof {
            reveal_strlit("invalid");
            reveal_strlit("infinite");
            reveal_strlit("-");
        }
        match *self {
            Duration::Invalid => "invalid".to_owned(),
            Duration::Infinite => "infinite".to_owned(),
            Duration::Finite(n) => {
                if n >= 0 {
                    let m: u64 = n as u64;
                    let secs: u64 = m / 1_000_000_000;
                    let nanos: u32 = (m % 1_000_000_000) as u32;
                    let r = format_human(secs, nanos);
                    proof {
                        vstd::arithmetic::div_mod::lemma_fundamental_div_mod(
                            n as int,
                            1_000_000_000,
                        );
                    }
                    r
                } else {
                    let m: u64 = (-n) as u64;
                    let secs: u64 = m / 1_000_000_000;
                    let nanos: u32 = (m % 1_000_000_000) as u32;
                    let tail = format_human(secs, nanos);
                    let r = "-".to_owned().concat(tail.as_str());
                    proof {
                        vstd::arithmetic::div_mod::lemma_fundamental_div_mod(
                            -n as int,
                            1_000_000_000,
                        );
                        assert(r@.subrange(1, r@.len() as int) =~= tail@);
                    }
                    r
                }
            },
        }
    }

    /// Begins reading a duration from text: the two literal forms settle
    /// at once, and any other text leaves one span — the text minus a
    /// leading `'-'`, if any — for the human-readable grammar. The caller
    /// runs the grammar on that span, shielding its call (on rare
    /// adversarial spans the outside parser aborts instead of failing),
    /// and hands the outcome to [`Duration::parse_text_finish`].
    pub fn parse_text_start(s: &str) -> (r: TextParse<'_>)
        ensures
            (match r {
                TextParse::Settled(d) => {
                    &&& duration_from_text(s@) == Some(d)
                    &&& d.wf()
                    &&& (s@ == "invalid"@ || s@ == "infinite"@)
                },
                TextParse::Span { negative, span } => {
                    &&& s@ != "invalid"@
                    &&& s@ != "infinite"@
                    &&& negative == (s@.len() > 0 && s@[0] == '-')
                    &&& span@ == parsed_span(s@, negative)
                },
            }),
    {
        let owned = s.to_owned();
        if owned == "invalid".to_owned() {
            return TextParse::Settled(Duration::Invalid);
        }
        if owned == "infinite".to_owned() {
            return TextParse::Settled(Duration::Infinite);
        }
        let n_chars = s.unicode_len();
        if n_chars > 0 && s.get_char(0) == '-' {
            TextParse::Span { negative: true, span: s.substring_char(1, n_chars) }
        } else {
            TextParse::Span { negative: false, span: s }
        }
    }

    /// Finishes reading a duration from text: turns the grammar's outcome
    /// for the span that [`Duration::parse_text_start`] named into the
    /// final count, rejecting a count that would reach a sentinel with an
    /// error naming the offending input, and passing a failed span's own
    /// description through. Whenever the outcome is what the grammar
    /// yields for that span, the result is exactly what the whole text
    /// denotes.
    pub fn parse_text_finish(s: &str, negative: bool, span_outcome: Result<(u64, u32), String>) -> (r:
        Result<Duration, ParseError>)
        ensures
            (match span_duration(negative, span_value(span_outcome)) {
                Some(d) => r == Ok::<Duration, ParseError>(d) && d.wf(),
                None => r matches Err(e) && e.input@ == s@,
            }),
            (match (r, span_outcome) {
                (Err(e), Err(detail)) => e.detail == detail,
                (Err(e), Ok(_)) => e.detail@ == "nanosecond count out of range"@,
                _ => true,
            }),
            (s@ != "invalid"@ && s@ != "infinite"@ && negative == (s@.len() > 0 && s@[0] == '-')
                && human_parse(parsed_span(s@, negative)) == span_value(span_outcome)) ==> (match r {
                Ok(d) => duration_from_text(s@) == Some(d),
                Err(_) => duration_from_text(s@) is None,
            }),
    {
        match span_outcome {
            Ok(p) => {
                let secs: u64 = p.0;
                let nanos: u32 = p.1;
                if secs > 9_223_372_036 {
                    proof {
                        assert(secs * 1_000_000_000 + nanos > DURATION_INFINITE)
                            by (nonlinear_arith)
                            requires
                                secs > 9_223_372_036,
                        ;
                    }
                    Err(out_of_range(s.to_owned()))
                } else {
                    proof {
                        assert(secs * 1_000_000_000 <= 9_223_372_036 * 1_000_000_000)
                            by (nonlinear_arith)
                            requires
                                secs <= 9_223_372_036,
                        ;
                    }
                    let total: u64 = secs * 1_000_000_000 + nanos as u64;
                    if negative {
                        if total > DURATION_INFINITE as u64 {
                            Err(out_of_range(s.to_owned()))
                        } else {
                            Ok(Duration::Finite(-(total as i64)))
                        }
                    } else {
                        if total >= DURATION_INFINITE as u64 {
                            Err(out_of_range(s.to_owned()))
                        } else {
                            Ok(Duration::Finite(total as i64))
                        }
                    }
                }
            },
            Err(detail) => Err(ParseError { input: s.to_owned(), detail }),
        }
    }
}

/// Where reading a duration from text stands once the literal forms and
/// the sign are settled: done, or one span left for the human-readable
/// grammar.
pub enum TextParse<'a> {
    /// The text was a literal form; this is its value.
    Settled(Duration),
    /// The text minus any leading `'-'` remains to be read as a span.
    Span {
        /// Whether a leading `'-'` was taken off.
        negative: bool,
        /// The span the grammar reads.
        span: &'a str,
    },
}

/// The rejection of a span whose nanosecond count would reach a sentinel.
fn out_of_range(input: String) -> (e: ParseError)
    ensures
        e.input == input,
        e.detail@ == "nanosecond count out of range"@,
{
    ParseError { input, detail: "nanosecond count out of range".to_owned() }
}

/// The ordering laws of the three states: `Invalid` is unordered against
/// every duration including another `Invalid`; `Infinite` is strictly above
/// every finite value and equal to itself; finite values order exactly by
/// their nanosecond counts.
pub proof fn lemma_ordering(a: Duration, b: Duration)
    ensures
        a is Invalid || b is Invalid ==> a.partial_cmp_spec(&b) is None,
        a is Infinite && b is Finite ==> a.partial_cmp_spec(&b) == Some(
            core::cmp::Ordering::Greater,
        ),
        a is Finite && b is Infinite ==> a.partial_cmp_spec(&b) == Some(core::cmp::Ordering::Less),
        a is Infinite && b is Infinite ==> a.partial_cmp_spec(&b) == Some(
            core::cmp::Ordering::Equal,
        ),
        a is Finite && b is Finite ==> ((a.partial_cmp_spec(&b) == Some(core::cmp::Ordering::Less))
            <==> a->0 < b->0),
        a is Finite && b is Finite ==> ((a.partial_cmp_spec(&b) == Some(
            core::cmp::Ordering::Greater,
        )) <==> a->0 > b->0),
        a is Finite && b is Finite ==> ((a.partial_cmp_spec(&b) == Some(
            core::cmp::Ordering::Equal,
        )) <==> a == b),
{
}

} // verus!
