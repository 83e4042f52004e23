//! The texts that the display shows.

use vstd::prelude::*;
use vstd::string::StringExecFns;

verus! {

/// The character that stands for a digit.
pub open spec fn digit_char(digit: nat) -> char
    recommends
        digit < 10,
{
    if digit == 0 {
        '0'
    } else if digit == 1 {
        '1'
    } else if digit == 2 {
        '2'
    } else if digit == 3 {
        '3'
    } else if digit == 4 {
        '4'
    } else if digit == 5 {
        '5'
    } else if digit == 6 {
        '6'
    } else if digit == 7 {
        '7'
    } else if digit == 8 {
        '8'
    } else {
        '9'
    }
}

/// A number written in decimal, without sign or leading zeros.
pub open spec fn decimal(number: nat) -> Seq<char>
    decreases number,
{
    if number < 10 {
        seq![digit_char(number)]
    } else {
        decimal(number / 10).push(digit_char(number % 10))
    }
}

/// The one-character text of a digit.
fn digit_text(digit: u8) -> (text: &'static str)
    requires
        digit < 10,
    ensures
        text@ == seq![digit_char(digit as nat)],
{
    proof {
        reveal_strlit("0");
        reveal_strlit("1");
        reveal_strlit("2");
        reveal_strlit("3");
        reveal_strlit("4");
        reveal_strlit("5");
        reveal_strlit("6");
        reveal_strlit("7");
        reveal_strlit("8");
        reveal_strlit("9");
    }
    let text = if digit == 0 {
        "0"
    } else if digit == 1 {
        "1"
    } else if digit == 2 {
        "2"
    } else if digit == 3 {
        "3"
    } else if digit == 4 {
        "4"
    } else if digit == 5 {
        "5"
    } else if digit == 6 {
        "6"
    } else if digit == 7 {
        "7"
    } else if digit == 8 {
        "8"
    } else {
        "9"
    };
    assert(text@ =~= seq![digit_char(digit as nat)]);
    text
}

/// Writes a number in decimal.
pub fn decimal_text(number: u8) -> (text: String)
    ensures
        text@ == decimal(number as nat),
{
    let mut text = String::new();
    if number >= 100 {
        text.append(digit_text(number / 100));
    }
    if number >= 10 {
        text.append(digit_text((number / 10) % 10));
    }
    text.append(digit_text(number % 10));
    proof {
        let n = number as nat;
        reveal_with_fuel(decimal, 3);
        assert(text@ =~= decimal(n));
    }
    text
}

/// The line under the logo: the versions of the firmware and of the control
/// software.
pub open spec fn branding_line(version_firmware: Seq<char>, version_control: Seq<char>) -> Seq<
    char,
> {
    "F"@ + version_firmware + " | C"@ + version_control
}

/// What the display says of an error.
pub open spec fn error_report(error: Seq<char>) -> Seq<char> {
    "An error happened:\n"@ + error
}

/// Writes the line under the logo.
pub fn branding_text(version_firmware: &str, version_control: &str) -> (text: String)
    ensures
        text@ == branding_line(version_firmware@, version_control@),
{
    let mut text = String::from_str("F");
    text.append(version_firmware);
    text.append(" | C");
    text.append(version_control);
    text
}

/// Writes what the display says of an error.
pub fn error_text(error: &str) -> (text: String)
    ensures
        text@ == error_report(error@),
{
    let mut text = String::from_str("An error happened:\n");
    text.append(error);
    text
}

} // verus!
