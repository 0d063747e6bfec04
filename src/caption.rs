use vstd::prelude::*;
use vstd::string::StringExecFns;

verus! {

/// The decimal digits of `n`, most significant first, with no leading zero.
pub open spec fn decimal_text(n: nat) -> Seq<char>
    decreases n,
{
    if n < 10 {
        seq![digit_char(n)]
    } else {
        decimal_text(n / 10).push(digit_char(n % 10))
    }
}

pub open spec fn digit_char(d: nat) -> char {
    if d < 10 {
        ((d + 48) as u8) as char
    } else {
        ' '
    }
}

/// The text stamped on a recorded frame: the capture time as text, then the
/// number of frames since the previous recorded one.
pub open spec fn caption_text(time: Seq<char>, frames_since_last: nat) -> Seq<char> {
    time + " | Frame Diff: "@ + decimal_text(frames_since_last)
}

/// The capture time `secs` seconds after the Unix epoch, in UTC, written as
/// day/month/year hours:minutes:seconds.
pub uninterp spec fn utc_time_text(secs: int) -> Seq<char>;

/// Seconds from the Unix epoch within which every instant has a calendar date.
pub const DATE_RANGE_SECS: i64 = 8_000_000_000_000;

/// Relies on chrono's `DateTime::from_timestamp`, which gives `None` only for
/// instants beyond its calendar (years -262143 to 262142),
/// and on `format("%d/%m/%Y %T")`, whose text depends on the instant alone.
#[verifier::external_body]
fn format_utc(secs: i64) -> (r: Option<String>)
    ensures
        r matches Some(t) ==> t@ == utc_time_text(secs as int),
        -DATE_RANGE_SECS <= secs <= DATE_RANGE_SECS ==> r is Some,
{
    chrono::DateTime::from_timestamp(secs, 0).map(|d| d.format("%d/%m/%Y %T").to_string())
}

/// Appends the decimal digits of `n` to `out`.
fn push_decimal(out: &mut String, n: u64)
    ensures
        final(out)@ == old(out)@ + decimal_text(n as nat),
    decreases n,
{
    if n >= 10 {
        push_decimal(out, n / 10);
    }
    let d = n % 10;
    let digit: &str = if d == 0 {
        "0"
    } else if d == 1 {
        "1"
    } else if d == 2 {
        "2"
    } else if d == 3 {
        "3"
    } else if d == 4 {
        "4"
    } else if d == 5 {
        "5"
    } else if d == 6 {
        "6"
    } else if d == 7 {
        "7"
    } else if d == 8 {
        "8"
    } else {
        "9"
    };
    proof {
        reveal_strlit("0");
        reveal_strlit("1");
        reveal_strlit("2");
        reveal_strlit("3");
        reveal_strlit("4");
        reveal_strlit("5");
        reveal_strlit("6");
        reveal_strlit("7");
        reveal_strlit("8");
        reveal_strlit("9");
        assert(digit@ == seq![digit_char(d as nat)]);
    }
    out.append(digit);
}

/// The decimal text of `n`.
pub fn decimal(n: u64) -> (r: String)
    ensures
        r@ == decimal_text(n as nat),
{
    let mut out = String::new();
    push_decimal(&mut out, n);
    proof {
        assert(out@ =~= decimal_text(n as nat));
    }
    out
}

/// The caption for a frame captured at the time written `time`, recorded
/// `frames_since_last` frames after the previous recorded one.
pub fn caption(time: &str, frames_since_last: u64) -> (r: String)
    ensures
        r@ == caption_text(time@, frames_since_last as nat),
{
    let mut out = time.to_owned();
    out.append(" | Frame Diff: ");
    let digits = decimal(frames_since_last);
    out.append(digits.as_str());
    out
}

/// The caption for a frame captured `secs` seconds after the Unix epoch, or
/// `None` where that instant has no calendar date.
pub fn caption_at(secs: i64, frames_since_last: u64) -> (r: Option<String>)
    ensures
        r matches Some(t) ==> t@ == caption_text(utc_time_text(secs as int), frames_since_last as nat),
        -DATE_RANGE_SECS <= secs <= DATE_RANGE_SECS ==> r is Some,
{
    match format_utc(secs) {
        Some(time) => Some(caption(time.as_str(), frames_since_last)),
        None => None,
    }
}

} // verus!
