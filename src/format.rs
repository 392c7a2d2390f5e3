use vstd::prelude::*;
use crate::util::push_char;
use humansize::FileSize;
use num_format::ToFormattedString;

verus! {

/// The character of a decimal digit.
pub open spec fn digit_of(d: nat) -> char
    recommends
        d < 10,
{
    ((d + 48) as u8) as char
}

/// The decimal digits of `n`, most significant first, without leading zeros.
pub open spec fn decimal_of(n: nat) -> Seq<char>
    decreases n,
{
    if n < 10 {
        seq![digit_of(n)]
    } else {
        decimal_of(n / 10) + seq![digit_of(n % 10)]
    }
}

/// The three decimal digits of `m < 1000`, zero-padded.
pub open spec fn three_digits_of(m: nat) -> Seq<char> {
    seq![digit_of(m / 100), digit_of((m / 10) % 10), digit_of(m % 10)]
}

/// `n` in decimal with a comma between each group of three digits, counted
/// from the right.
pub open spec fn grouped_of(n: nat) -> Seq<char>
    decreases n,
{
    if n < 1000 {
        decimal_of(n)
    } else {
        grouped_of(n / 1000) + seq![','] + three_digits_of(n % 1000)
    }
}

/// The human-readable size, in binary units, that the size formatter gives
/// for `n` bytes.
pub uninterp spec fn binary_size_of(n: nat) -> Seq<char>;

/// The English phrase that the humanizer gives for a span of `secs` seconds
/// (negative for the past).
pub uninterp spec fn humanized_of(secs: int) -> Seq<char>;

/// A text with the leading and trailing whitespace removed.
pub uninterp spec fn trimmed_of(s: Seq<char>) -> Seq<char>;

/// The longest span, in seconds either way, that the humanizer accepts:
/// `i64::MAX` milliseconds, in whole seconds.
pub const MAX_SPAN_SECS: i64 = 9_223_372_036_854_775;

/// A text with each line break turned into a space.
pub open spec fn flattened(s: Seq<char>) -> Seq<char> {
    s.map_values(|c: char| if c == '\n' { ' ' } else { c })
}

fn digit_char(d: usize) -> (c: char)
    requires
        d < 10,
    ensures
        c == digit_of(d as nat),
{
    ((d as u8) + 48) as char
}

/// `n` in decimal.
pub fn decimal_text(n: usize) -> (r: String)
    ensures
        r@ == decimal_of(n as nat),
    decreases n,
{
    if n < 10 {
        let mut s = String::new();
        push_char(&mut s, digit_char(n));
        s
    } else {
        let mut s = decimal_text(n / 10);
        push_char(&mut s, digit_char(n % 10));
        s
    }
}

/// Relies on num_format's `to_formatted_string` with `Locale::en`, whose
/// separator is "," and whose grouping is by threes.
#[verifier::external_body]
pub(crate) fn en_grouped(n: usize) -> (r: String)
    ensures
        r@ == grouped_of(n as nat),
{
    n.to_formatted_string(&num_format::Locale::en)
}

/// Relies on humansize's `file_size` with `file_size_opts::BINARY`, which
/// never fails on an unsigned value.
#[verifier::external_body]
pub(crate) fn binary_size(n: usize) -> (r: String)
    ensures
        r@ == binary_size_of(n as nat),
{
    match n.file_size(humansize::file_size_opts::BINARY) {
        Ok(s) => s,
        Err(e) => e,
    }
}

/// Relies on chrono_humanize's `HumanTime` built from a `chrono::Duration`
/// of `secs` seconds, shown with `to_string`; `Duration::seconds` accepts
/// exactly the spans within `MAX_SPAN_SECS`.
#[verifier::external_body]
fn humanized(secs: i64) -> (r: String)
    requires
        -MAX_SPAN_SECS <= secs <= MAX_SPAN_SECS,
    ensures
        r@ == humanized_of(secs as int),
{
    chrono_humanize::HumanTime::from(chrono::Duration::seconds(secs)).to_string()
}

/// The phrase for the time from `now` to `at` (both in seconds since the
/// epoch), such as `2 days ago`; `None` when the span is too long to phrase.
pub open spec fn span_phrase_of(at: int, now: int) -> Option<Seq<char>> {
    if -MAX_SPAN_SECS <= at - now <= MAX_SPAN_SECS {
        Some(humanized_of(at - now))
    } else {
        None
    }
}

pub fn span_phrase(at: i64, now: i64) -> (r: Option<String>)
    ensures
        match r {
            Some(s) => span_phrase_of(at as int, now as int) == Some(s@),
            None => span_phrase_of(at as int, now as int) is None,
        },
{
    match at.checked_sub(now) {
        Some(d) => {
            if -MAX_SPAN_SECS <= d && d <= MAX_SPAN_SECS {
                Some(humanized(d))
            } else {
                None
            }
        },
        None => None,
    }
}

/// Relies on `str::trim`: the result depends on the text alone.
#[verifier::external_body]
fn trim_str(s: &str) -> (r: &str)
    ensures
        r@ == trimmed_of(s@),
{
    s.trim()
}

/// Turns each line break into a space.
pub fn flatten_lines(s: &str) -> (r: String)
    ensures
        r@ == flattened(s@),
{
    let mut out = String::new();
    for c in it: s.chars()
        invariant
            it.seq() == s@,
            out@ == flattened(s@.take(it.index() as int)),
    {
        proof {
            let i = it.index() as int;
            assert(flattened(s@.take(i + 1)) =~= flattened(s@.take(i)).push(
                if s@[i] == '\n' { ' ' } else { s@[i] },
            ));
        }
        if c == '\n' {
            push_char(&mut out, ' ');
        } else {
            push_char(&mut out, c);
        }
    }
    proof {
        assert(s@.take(s@.len() as int) =~= s@);
    }
    out
}

/// A description on one line, without surrounding whitespace.
pub fn one_line(s: &str) -> (r: String)
    ensures
        r@ == trimmed_of(flattened(s@)),
{
    let flat = flatten_lines(s);
    let t = trim_str(flat.as_str());
    t.to_owned()
}

} // verus!
