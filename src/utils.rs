//! Durations as text and URL prefix checks.
use vstd::prelude::*;

verus! {

/// The decimal digits of `n`, without leading zeros ("0" for zero).
pub open spec fn decimal(n: nat) -> Seq<char>
    decreases n,
{
    if n < 10 {
        seq![digit_char(n)]
    } else {
        decimal(n / 10).push(digit_char(n % 10))
    }
}

pub open spec fn digit_char(d: nat) -> char {
    if d == 0 {
        '0'
    } else if d == 1 {
        '1'
    } else if d == 2 {
        '2'
    } else if d == 3 {
        '3'
    } else if d == 4 {
        '4'
    } else if d == 5 {
        '5'
    } else if d == 6 {
        '6'
    } else if d == 7 {
        '7'
    } else if d == 8 {
        '8'
    } else if d == 9 {
        '9'
    } else {
        '?'
    }
}

/// `n` below 100 as exactly two decimal digits.
pub open spec fn two_digits(n: nat) -> Seq<char> {
    seq![digit_char(n / 10), digit_char(n % 10)]
}

/// The one-character text of the digit `d`.
fn digit_str(d: u64) -> (r: &'static str)
    requires
        d < 10,
    ensures
        r@ == seq![digit_char(d as nat)],
{
    proof {
        reveal_strlit("0");
        reveal_strlit("1");
        reveal_strlit("2");
        reveal_strlit("3");
        reveal_strlit("4");
        reveal_strlit("5");
        reveal_strlit("6");
        reveal_strlit("7");
        reveal_strlit("8");
        reveal_strlit("9");
    }
    if d == 0 {
        "0"
    } else if d == 1 {
        "1"
    } else if d == 2 {
        "2"
    } else if d == 3 {
        "3"
    } else if d == 4 {
        "4"
    } else if d == 5 {
        "5"
    } else if d == 6 {
        "6"
    } else if d == 7 {
        "7"
    } else if d == 8 {
        "8"
    } else {
        "9"
    }
}

/// The decimal digits of `n`.
pub fn decimal_string(n: u64) -> (r: String)
    ensures
        r@ == decimal(n as nat),
    decreases n,
{
    if n < 10 {
        digit_str(n).to_owned()
    } else {
        let mut s = decimal_string(n / 10);
        s.append(digit_str(n % 10));
        s
    }
}

/// Relies on `str::starts_with` with a `&str` pattern: whether `prefix`
/// is a prefix of `s`.
#[verifier::external_body]
fn has_prefix(s: &str, prefix: &str) -> (r: bool)
    ensures
        r == (prefix@.len() <= s@.len() && s@.subrange(0, prefix@.len() as int) == prefix@),
{
    s.starts_with(prefix)
}

/// The text of a duration of `nanos` nanoseconds: seconds with two
/// decimals (rounded half up) from one second on, whole milliseconds from
/// one millisecond on, whole microseconds below.
pub open spec fn duration_text(nanos: nat) -> Seq<char> {
    if nanos >= 1_000_000_000 {
        let centis = (nanos + 5_000_000) / 10_000_000;
        decimal(centis / 100) + "."@ + two_digits(centis % 100) + "s"@
    } else if nanos >= 1_000_000 {
        decimal(nanos / 1_000_000) + "ms"@
    } else {
        decimal(nanos / 1000) + "μs"@
    }
}

pub fn format_duration(nanos: u64) -> (r: String)
    ensures
        r@ == duration_text(nanos as nat),
{
    if nanos >= 1_000_000_000 {
        let centis: u64 = (nanos / 10 + 500_000) / 1_000_000;
        proof {
            assert(centis == (nanos + 5_000_000) / 10_000_000);
        }
        let mut s = decimal_string(centis / 100);
        s.append(".");
        let frac = centis % 100;
        let tens = decimal_string(frac / 10);
        let ones = decimal_string(frac % 10);
        s.append(tens.as_str());
        s.append(ones.as_str());
        s.append("s");
        proof {
            assert(two_digits(frac as nat) =~= decimal((frac / 10) as nat) + decimal((frac % 10) as nat));
            assert(s@ =~= decimal((centis / 100) as nat) + "."@ + two_digits(frac as nat) + "s"@);
        }
        s
    } else if nanos >= 1_000_000 {
        let mut s = decimal_string(nanos / 1_000_000);
        s.append("ms");
        s
    } else {
        let mut s = decimal_string(nanos / 1000);
        s.append("μs");
        s
    }
}

/// Accepts a URL that starts with `http://` or `https://`.
pub fn validate_url(url: &str) -> (r: Result<(), String>)
    ensures
        r is Ok <==> ("http://"@.len() <= url@.len() && url@.subrange(0, 7) == "http://"@) || (
        "https://"@.len() <= url@.len() && url@.subrange(0, 8) == "https://"@),
        r matches Err(e) ==> e@ == "URL must start with http:// or https://"@,
{
    proof {
        reveal_strlit("http://");
        reveal_strlit("https://");
    }
    if has_prefix(url, "http://") || has_prefix(url, "https://") {
        Ok(())
    } else {
        Err("URL must start with http:// or https://".to_owned())
    }
}

} // verus!
