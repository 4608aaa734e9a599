//! Decimal text for byte values.

use vstd::prelude::*;

verus! {

/// The character that writes the digit `value`, which is below ten.
pub open spec fn digit(value: u8) -> char {
    ('0' as int + value) as char
}

/// The decimal numeral of `value`, without leading zeros.
pub open spec fn decimal(value: u8) -> Seq<char> {
    if value < 10 {
        seq![digit(value)]
    } else if value < 100 {
        seq![digit(value / 10), digit(value % 10)]
    } else {
        seq![digit(value / 100), digit((value / 10) % 10), digit(value % 10)]
    }
}

/// The text of one digit.
fn digit_text(value: u8) -> (text: &'static str)
    requires
        value < 10,
    ensures
        text@ == seq![digit(value)],
{
    proof {
        reveal_strlit("0");
        reveal_strlit("1");
        reveal_strlit("2");
        reveal_strlit("3");
        reveal_strlit("4");
        reveal_strlit("5");
        reveal_strlit("6");
        reveal_strlit("7");
        reveal_strlit("8");
        reveal_strlit("9");
    }
    let text = match value {
        0 => "0",
        1 => "1",
        2 => "2",
        3 => "3",
        4 => "4",
        5 => "5",
        6 => "6",
        7 => "7",
        8 => "8",
        _ => "9",
    };
    text
}

/// Appends the decimal numeral of `value` to `text`.
pub fn push_decimal(text: &mut String, value: u8)
    ensures
        final(text)@ == old(text)@ + decimal(value),
{
    if value >= 100 {
        text.append(digit_text(value / 100));
    }
    if value >= 10 {
        text.append(digit_text((value / 10) % 10));
    }
    text.append(digit_text(value % 10));
}

} // verus!
