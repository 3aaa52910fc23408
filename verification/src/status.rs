//! The line that reports a reading.

use vstd::prelude::*;
use vstd::string::*;
use crate::mouse::BatteryStatus;

verus! {

/// The glyph that opens every status line.
pub const GLYPH_MOUSE: char = '\u{f8cc}';

/// The glyph that follows it while the mouse charges.
pub const GLYPH_CHARGING: char = '\u{f0e7}';

/// The character of a decimal digit.
pub open spec fn digit_char(d: int) -> char {
    seq!['0', '1', '2', '3', '4', '5', '6', '7', '8', '9'][d]
}

/// A number in decimal, without leading zeros.
pub open spec fn decimal(n: nat) -> Seq<char>
    decreases n,
{
    if n < 10 {
        seq![digit_char(n as int)]
    } else {
        decimal(n / 10).push(digit_char((n % 10) as int))
    }
}

/// The status line of a reading: the mouse glyph, the charging glyph
/// while the mouse charges, a space, the charge in decimal and a percent
/// sign.
pub open spec fn status_text(status: BatteryStatus) -> Seq<char> {
    seq![GLYPH_MOUSE] + (if status.is_charging {
        seq![GLYPH_CHARGING]
    } else {
        Seq::<char>::empty()
    }) + seq![' '] + decimal(status.percent as nat) + seq!['%']
}

fn digit_text(d: u16) -> (text: &'static str)
    requires
        d < 10,
    ensures
        text@ == seq![digit_char(d as int)],
{
    proof {
        reveal_strlit("0");
        reveal_strlit("1");
        reveal_strlit("2");
        reveal_strlit("3");
        reveal_strlit("4");
        reveal_strlit("5");
        reveal_strlit("6");
        reveal_strlit("7");
        reveal_strlit("8");
        reveal_strlit("9");
    }
    let text = if d == 0 {
        "0"
    } else if d == 1 {
        "1"
    } else if d == 2 {
        "2"
    } else if d == 3 {
        "3"
    } else if d == 4 {
        "4"
    } else if d == 5 {
        "5"
    } else if d == 6 {
        "6"
    } else if d == 7 {
        "7"
    } else if d == 8 {
        "8"
    } else {
        "9"
    };
    assert(text@ =~= seq![digit_char(d as int)]);
    text
}

/// Appends a number in decimal to a line.
pub fn append_decimal(line: &mut String, n: u16)
    ensures
        final(line)@ == old(line)@ + decimal(n as nat),
    decreases n,
{
    if n >= 10 {
        append_decimal(line, n / 10);
    }
    line.append(digit_text(n % 10));
    assert(line@ =~= old(line)@ + decimal(n as nat));
}

/// Writes the status line of a reading.
pub fn status_line(status: &BatteryStatus) -> (line: String)
    ensures
        line@ == status_text(*status),
{
    proof {
        reveal_strlit("\u{f8cc}");
        reveal_strlit("\u{f0e7}");
        reveal_strlit(" ");
        reveal_strlit("%");
    }
    let mut line: String = "\u{f8cc}".to_owned();
    if status.is_charging {
        line.append("\u{f0e7}");
    }
    line.append(" ");
    append_decimal(&mut line, status.percent);
    line.append("%");
    assert(line@ =~= status_text(*status));
    line
}

} // verus!
