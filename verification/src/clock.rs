//! The time of day as it is shown in front of a line: two digits for the
//! hour, a colon, two digits for the minute.

use vstd::prelude::*;
use chrono::Timelike;

verus! {

/// The character that stands for the decimal digit `d`.
pub open spec fn digit_char(d: int) -> char {
    if d == 0 {
        '0'
    } else if d == 1 {
        '1'
    } else if d == 2 {
        '2'
    } else if d == 3 {
        '3'
    } else if d == 4 {
        '4'
    } else if d == 5 {
        '5'
    } else if d == 6 {
        '6'
    } else if d == 7 {
        '7'
    } else if d == 8 {
        '8'
    } else {
        '9'
    }
}

/// The five characters `HH:MM` for an hour and a minute below one hundred.
pub open spec fn clock_text(hour: int, minute: int) -> Seq<char> {
    seq![
        digit_char(hour / 10),
        digit_char(hour % 10),
        ':',
        digit_char(minute / 10),
        digit_char(minute % 10),
    ]
}

/// Whether `t` is the stamp of some time of day.
pub open spec fn is_clock_text(t: Seq<char>) -> bool {
    exists|hour: int, minute: int|
        0 <= hour < 24 && 0 <= minute < 60 && t == #[trigger] clock_text(hour, minute)
}

fn digit(d: u32) -> (c: char)
    requires
        d < 10,
    ensures
        c == digit_char(d as int),
{
    if d == 0 {
        '0'
    } else if d == 1 {
        '1'
    } else if d == 2 {
        '2'
    } else if d == 3 {
        '3'
    } else if d == 4 {
        '4'
    } else if d == 5 {
        '5'
    } else if d == 6 {
        '6'
    } else if d == 7 {
        '7'
    } else if d == 8 {
        '8'
    } else {
        '9'
    }
}

/// Writes an hour and a minute as `HH:MM`, each padded with a zero to two
/// digits.
pub fn clock_stamp(hour: u32, minute: u32) -> (r: String)
    requires
        hour < 100,
        minute < 100,
    ensures
        r@ == clock_text(hour as int, minute as int),
{
    let mut r = String::new();
    r.push(digit(hour / 10));
    r.push(digit(hour % 10));
    r.push(':');
    r.push(digit(minute / 10));
    r.push(digit(minute % 10));
    assert(r@ =~= clock_text(hour as int, minute as int));
    r
}

/// Reads the local time of day: `chrono::Local::now`, then
/// `chrono::Timelike::hour` and `chrono::Timelike::minute` of what it gave.
/// Trusted: the hour is below 24 and the minute is below 60, whatever the
/// clock says.
#[verifier::external_body]
fn wall_clock() -> (now: (u32, u32))
    ensures
        now.0 < 24,
        now.1 < 60,
{
    let now = chrono::Local::now();
    (now.hour(), now.minute())
}

/// The stamp of the present moment, local time.
pub fn timestamp() -> (r: String)
    ensures
        is_clock_text(r@),
{
    let (hour, minute) = wall_clock();
    clock_stamp(hour, minute)
}

} // verus!
