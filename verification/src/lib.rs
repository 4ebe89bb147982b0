//! A streaming audio playback engine.
//!
//! The library decodes a compressed track frame by frame, turns the decoded
//! frames into one stream of signed 16-bit samples, estimates how long a track
//! plays without decoding its samples, and decides what the playback worker
//! does next. Reading files, writing to the sound device and running threads
//! are left to the program around it.

use std::time::Duration;
use vstd::prelude::*;
use vstd::string::StringExecFns;

pub mod frame;
pub mod mp3;
pub mod player;
pub mod playhead;
pub mod source;
pub mod span;
pub mod status;
pub mod tags;

use crate::span::span_millis;

verus! {

/// The length of a span in whole milliseconds.
///
/// The span must be short enough for its milliseconds to fit in 64 bits;
/// [`checked_millis`] makes that test.
pub fn to_millis(duration: Duration) -> (millis: u64)
    requires
        span_millis(duration) <= u64::MAX,
    ensures
        millis == span_millis(duration),
{
    let secs: u64 = duration.as_secs();
    let nanos: u32 = duration.subsec_nanos();
    let below: u32 = nanos / 1_000_000;
    secs * 1000 + below as u64
}

/// The length of a span in whole milliseconds, or `None` where they do not
/// fit in 64 bits.
pub fn checked_millis(duration: Duration) -> (millis: Option<u64>)
    ensures
        match millis {
            Some(m) => m == span_millis(duration),
            None => span_millis(duration) > u64::MAX,
        },
{
    let secs: u64 = duration.as_secs();
    let nanos: u32 = duration.subsec_nanos();
    let below: u32 = nanos / 1_000_000;
    match secs.checked_mul(1000) {
        None => None,
        Some(whole) => match whole.checked_add(below as u64) {
            None => None,
            Some(_) => Some(to_millis(duration)),
        },
    }
}

/// The character of a decimal digit.
pub open spec fn digit_char(digit: nat) -> char {
    if digit == 0 {
        '0'
    } else if digit == 1 {
        '1'
    } else if digit == 2 {
        '2'
    } else if digit == 3 {
        '3'
    } else if digit == 4 {
        '4'
    } else if digit == 5 {
        '5'
    } else if digit == 6 {
        '6'
    } else if digit == 7 {
        '7'
    } else if digit == 8 {
        '8'
    } else {
        '9'
    }
}

/// A number written in decimal digits, without leading zeros.
pub open spec fn decimal(number: nat) -> Seq<char>
    decreases number,
{
    if number < 10 {
        seq![digit_char(number)]
    } else {
        decimal(number / 10).push(digit_char(number % 10))
    }
}

/// A time as the player shows it: the whole minutes, a colon, and the
/// seconds of the last minute in two digits.
pub open spec fn clock_text(millis: u64) -> Seq<char> {
    let seconds = (millis / 1000) as nat;
    decimal(seconds / 60) + seq![':', digit_char((seconds % 60) / 10), digit_char((seconds % 60) % 10)]
}

/// The text of one decimal digit.
fn digit_text(digit: u64) -> (text: &'static str)
    requires
        digit < 10,
    ensures
        text@ == seq![digit_char(digit as nat)],
{
    proof {
        reveal_strlit("0");
        reveal_strlit("1");
        reveal_strlit("2");
        reveal_strlit("3");
        reveal_strlit("4");
        reveal_strlit("5");
        reveal_strlit("6");
        reveal_strlit("7");
        reveal_strlit("8");
        reveal_strlit("9");
    }
    let text = if digit == 0 {
        "0"
    } else if digit == 1 {
        "1"
    } else if digit == 2 {
        "2"
    } else if digit == 3 {
        "3"
    } else if digit == 4 {
        "4"
    } else if digit == 5 {
        "5"
    } else if digit == 6 {
        "6"
    } else if digit == 7 {
        "7"
    } else if digit == 8 {
        "8"
    } else {
        "9"
    };
    assert(text@ =~= seq![digit_char(digit as nat)]);
    text
}

/// Writes a number in decimal digits at the end of a text.
pub fn append_decimal(text: &mut String, number: u64)
    ensures
        final(text)@ == old(text)@ + decimal(number as nat),
    decreases number,
{
    if number >= 10 {
        append_decimal(text, number / 10);
    }
    text.append(digit_text(number % 10));
    assert(text@ =~= old(text)@ + decimal(number as nat));
}

/// Writes a time in milliseconds as minutes and seconds, the way the player
/// shows it: `125000` is written `2:05`.
pub fn millis_to_minutes(millis: u64) -> (text: String)
    ensures
        text@ == clock_text(millis),
{
    let mut seconds: u64 = millis / 1_000;
    let minutes: u64 = seconds / 60;
    seconds %= 60;
    let mut text = String::from_str("");
    proof {
        reveal_strlit("");
        reveal_strlit(":");
    }
    append_decimal(&mut text, minutes);
    text.append(":");
    text.append(digit_text(seconds / 10));
    text.append(digit_text(seconds % 10));
    assert(text@ =~= clock_text(millis));
    text
}

} // verus!
