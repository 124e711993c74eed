//! The text of the summary control: the time as `HH:MM`.

use vstd::prelude::*;
use vstd::string::StringExecFns;

verus! {

/// The character for a single decimal digit.
pub open spec fn digit(value: int) -> char {
    seq!['0', '1', '2', '3', '4', '5', '6', '7', '8', '9'][value]
}

/// A number below one hundred as two decimal digits, padded with a zero.
pub open spec fn two_digits(value: int) -> Seq<char> {
    seq![digit(value / 10), digit(value % 10)]
}

/// A time as text: the hour and the minute, two digits each, with a colon
/// between them.
pub open spec fn clock_text(hour: int, minute: int) -> Seq<char> {
    two_digits(hour) + seq![':'] + two_digits(minute)
}

/// The text of one decimal digit.
fn digit_text(value: u8) -> (text: &'static str)
    requires
        value <= 9,
    ensures
        text@ == seq![digit(value as int)],
{
    proof {
        reveal_strlit("0");
        reveal_strlit("1");
        reveal_strlit("2");
        reveal_strlit("3");
        reveal_strlit("4");
        reveal_strlit("5");
        reveal_strlit("6");
        reveal_strlit("7");
        reveal_strlit("8");
        reveal_strlit("9");
    }
    let text = match value {
        0 => "0",
        1 => "1",
        2 => "2",
        3 => "3",
        4 => "4",
        5 => "5",
        6 => "6",
        7 => "7",
        8 => "8",
        _ => "9",
    };
    assert(text@ =~= seq![digit(value as int)]);
    text
}

/// Writes a time of day as `HH:MM`.
pub(crate) fn write_clock(hour: u8, minute: u8) -> (text: String)
    requires
        hour <= 99,
        minute <= 99,
    ensures
        text@ == clock_text(hour as int, minute as int),
        text@.len() == 5,
{
    proof {
        reveal_strlit(":");
    }
    let mut text = String::new();
    text.append(digit_text(hour / 10));
    text.append(digit_text(hour % 10));
    text.append(":");
    text.append(digit_text(minute / 10));
    text.append(digit_text(minute % 10));
    assert(text@ =~= clock_text(hour as int, minute as int));
    text
}

} // verus!
