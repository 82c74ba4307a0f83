//! Text for the numbers that a rendering shows.

use vstd::prelude::*;
use vstd::string::*;

verus! {

/// The character of a single decimal digit.
pub open spec fn digit_char(d: nat) -> char {
    if d == 0 {
        '0'
    } else if d == 1 {
        '1'
    } else if d == 2 {
        '2'
    } else if d == 3 {
        '3'
    } else if d == 4 {
        '4'
    } else if d == 5 {
        '5'
    } else if d == 6 {
        '6'
    } else if d == 7 {
        '7'
    } else if d == 8 {
        '8'
    } else {
        '9'
    }
}

/// The decimal numeral of `n`, without sign or leading zeros.
pub open spec fn decimal_text(n: nat) -> Seq<char>
    decreases n,
{
    if n < 10 {
        seq![digit_char(n)]
    } else {
        decimal_text(n / 10).push(digit_char(n % 10))
    }
}

fn digit_str(d: u64) -> (s: &'static str)
    requires
        d < 10,
    ensures
        s@ == seq![digit_char(d as nat)],
{
    proof {
        reveal_strlit("0");
        reveal_strlit("1");
        reveal_strlit("2");
        reveal_strlit("3");
        reveal_strlit("4");
        reveal_strlit("5");
        reveal_strlit("6");
        reveal_strlit("7");
        reveal_strlit("8");
        reveal_strlit("9");
    }
    let s = if d == 0 {
        "0"
    } else if d == 1 {
        "1"
    } else if d == 2 {
        "2"
    } else if d == 3 {
        "3"
    } else if d == 4 {
        "4"
    } else if d == 5 {
        "5"
    } else if d == 6 {
        "6"
    } else if d == 7 {
        "7"
    } else if d == 8 {
        "8"
    } else {
        "9"
    };
    assert(s@ =~= seq![digit_char(d as nat)]);
    s
}

/// Writes `n` as a decimal numeral.
pub fn decimal(n: u64) -> (text: String)
    ensures
        text@ == decimal_text(n as nat),
    decreases n,
{
    if n < 10 {
        String::from_str(digit_str(n))
    } else {
        let mut text = decimal(n / 10);
        text.append(digit_str(n % 10));
        assert(text@ =~= decimal_text((n / 10) as nat).push(digit_char((n % 10) as nat)));
        text
    }
}

/// A number of tenths with one decimal place: `123` reads `12.3`.
pub open spec fn tenths_text(tenths: nat) -> Seq<char> {
    decimal_text(tenths / 10) + "."@ + seq![digit_char(tenths % 10)]
}

/// A share in tenths of a percent, as shown: `12.3%`.
pub open spec fn percent_text(tenths: nat) -> Seq<char> {
    tenths_text(tenths) + "%"@
}

/// Nanoseconds rounded to the nearest tenth of a second, halves upwards.
pub open spec fn rounded_tenths(nanos: nat) -> nat {
    (nanos + 50_000_000) / 100_000_000
}

/// Nanoseconds rounded to the nearest second, halves upwards.
pub open spec fn rounded_secs(nanos: nat) -> nat {
    (nanos + 500_000_000) / 1_000_000_000
}

/// A length of media, as shown: seconds with one decimal place, `12.3s`.
pub open spec fn seconds_text(nanos: nat) -> Seq<char> {
    tenths_text(rounded_tenths(nanos)) + "s"@
}

/// How long ago something happened, as shown: `T-12`, in whole seconds.
pub open spec fn age_text(nanos: nat) -> Seq<char> {
    "T-"@ + decimal_text(rounded_secs(nanos))
}

/// A time span in minutes and seconds, as shown: `3m 7s`.
pub open spec fn min_sec_text(secs: nat) -> Seq<char> {
    decimal_text(secs / 60) + "m "@ + decimal_text(secs % 60) + "s"@
}

/// The name of the log file that is begun at `epoch` seconds after 1970.
pub open spec fn log_file_text(epoch: nat) -> Seq<char> {
    decimal_text(epoch) + "_log.json"@
}

fn tenths(value: u64) -> (text: String)
    ensures
        text@ == tenths_text(value as nat),
{
    let mut text = decimal(value / 10);
    text.append(".");
    text.append(digit_str(value % 10));
    text
}

/// Writes a share given in tenths of a percent.
pub fn format_percent(tenths_of_percent: u64) -> (text: String)
    ensures
        text@ == percent_text(tenths_of_percent as nat),
{
    let mut text = tenths(tenths_of_percent);
    text.append("%");
    text
}

/// Writes a length of media in seconds, with one decimal place.
pub fn format_seconds(nanos: u64) -> (text: String)
    ensures
        text@ == seconds_text(nanos as nat),
{
    let rounded: u64 = ((nanos as u128 + 50_000_000) / 100_000_000) as u64;
    let mut text = tenths(rounded);
    text.append("s");
    text
}

/// Writes how many seconds ago something happened.
pub fn format_age(nanos: u64) -> (text: String)
    ensures
        text@ == age_text(nanos as nat),
{
    let rounded: u64 = ((nanos as u128 + 500_000_000) / 1_000_000_000) as u64;
    let mut text = String::from_str("T-");
    let number = decimal(rounded);
    text.append(number.as_str());
    text
}

/// Writes a time span in minutes and seconds.
pub fn format_min_sec(secs: u64) -> (text: String)
    ensures
        text@ == min_sec_text(secs as nat),
{
    let mut text = decimal(secs / 60);
    let rest = decimal(secs % 60);
    text.append("m ");
    text.append(rest.as_str());
    text.append("s");
    text
}

/// Names the log file that is begun at `epoch` seconds after 1970.
pub fn log_file_name(epoch: u64) -> (name: String)
    ensures
        name@ == log_file_text(epoch as nat),
{
    let mut name = decimal(epoch);
    name.append("_log.json");
    name
}

} // verus!
