//! Numbers as decimal text, for the lines that the pages show.

use vstd::prelude::*;
use vstd::string::StringExecFns;

verus! {

/// The character for a single decimal digit.
pub open spec fn digit_char(digit: nat) -> char {
    if digit == 0 {
        '0'
    } else if digit == 1 {
        '1'
    } else if digit == 2 {
        '2'
    } else if digit == 3 {
        '3'
    } else if digit == 4 {
        '4'
    } else if digit == 5 {
        '5'
    } else if digit == 6 {
        '6'
    } else if digit == 7 {
        '7'
    } else if digit == 8 {
        '8'
    } else {
        '9'
    }
}

/// The digit that a character stands for; 0 for a character that is no
/// digit.
pub open spec fn digit_value(digit: char) -> nat {
    if '0' <= digit <= '9' {
        (digit as u32 - '0' as u32) as nat
    } else {
        0
    }
}

/// A number in decimal, without leading zeros.
pub open spec fn decimal_text(number: nat) -> Seq<char>
    decreases number,
{
    if number < 10 {
        seq![digit_char(number)]
    } else {
        decimal_text(number / 10).push(digit_char(number % 10))
    }
}

/// A number in decimal, with a leading zero where it has one digit only.
pub open spec fn padded_text(number: nat) -> Seq<char> {
    if number < 10 {
        seq!['0', digit_char(number)]
    } else {
        decimal_text(number)
    }
}

/// The number that a text spells in decimal.
pub open spec fn decimal_value(text: Seq<char>) -> nat
    decreases text.len(),
{
    if text.len() == 0 {
        0
    } else {
        decimal_value(text.drop_last()) * 10 + digit_value(text.last())
    }
}

/// Reading the decimal text of a number gives the number back, and the text
/// has no leading zero.
pub proof fn lemma_decimal_round_trip(number: nat)
    ensures
        decimal_value(decimal_text(number)) == number,
        decimal_text(number).len() >= 1,
        number > 0 ==> decimal_text(number)[0] != '0',
        number < 10 <==> decimal_text(number).len() == 1,
    decreases number,
{
    if number < 10 {
        let text = decimal_text(number);
        assert(text.drop_last() =~= Seq::<char>::empty());
        assert(decimal_value(text.drop_last()) == 0);
    } else {
        lemma_decimal_round_trip(number / 10);
        let text = decimal_text(number);
        assert(text.drop_last() =~= decimal_text(number / 10));
    }
}

/// The text of one decimal digit.
fn digit_str(digit: u8) -> (text: &'static str)
    requires
        digit < 10,
    ensures
        text@ == seq![digit_char(digit as nat)],
{
    proof {
        reveal_strlit("0");
        reveal_strlit("1");
        reveal_strlit("2");
        reveal_strlit("3");
        reveal_strlit("4");
        reveal_strlit("5");
        reveal_strlit("6");
        reveal_strlit("7");
        reveal_strlit("8");
        reveal_strlit("9");
    }
    let text = match digit {
        0 => "0",
        1 => "1",
        2 => "2",
        3 => "3",
        4 => "4",
        5 => "5",
        6 => "6",
        7 => "7",
        8 => "8",
        _ => "9",
    };
    assert(text@ =~= seq![digit_char(digit as nat)]);
    text
}

/// Writes a number in decimal, without leading zeros.
pub fn decimal(number: u128) -> (text: String)
    ensures
        text@ == decimal_text(number as nat),
    decreases number,
{
    if number < 10 {
        String::from_str(digit_str(number as u8))
    } else {
        let mut text = decimal(number / 10);
        let last = digit_str((number % 10) as u8);
        text.append(last);
        assert(text@ =~= decimal_text((number / 10) as nat).push(digit_char((number % 10) as nat)));
        text
    }
}

/// Writes a number in decimal, with a leading zero where it has one digit
/// only.
pub fn padded(number: u128) -> (text: String)
    ensures
        text@ == padded_text(number as nat),
{
    if number < 10 {
        let mut text = String::from_str(digit_str(0));
        text.append(digit_str(number as u8));
        assert(text@ =~= seq!['0', digit_char(number as nat)]);
        text
    } else {
        decimal(number)
    }
}

} // verus!
