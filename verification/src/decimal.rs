//! Numbers written in decimal, as they stand in the child's arguments and in
//! error messages.

use vstd::prelude::*;
use vstd::string::StringExecFns;

verus! {

/// The character of one decimal digit.
pub open spec fn spec_digit(digit: nat) -> char {
    if digit == 0 {
        '0'
    } else if digit == 1 {
        '1'
    } else if digit == 2 {
        '2'
    } else if digit == 3 {
        '3'
    } else if digit == 4 {
        '4'
    } else if digit == 5 {
        '5'
    } else if digit == 6 {
        '6'
    } else if digit == 7 {
        '7'
    } else if digit == 8 {
        '8'
    } else {
        '9'
    }
}

/// The decimal digits of `number`, most significant first, without sign and
/// without leading zeros; zero is `0`.
pub open spec fn spec_decimal(number: nat) -> Seq<char>
    decreases number,
{
    if number < 10 {
        seq![spec_digit(number)]
    } else {
        spec_decimal(number / 10).push(spec_digit(number % 10))
    }
}

/// The digit that a character stands for; a character that is no digit
/// counts as zero.
pub open spec fn spec_digit_value(digit: char) -> nat {
    if digit == '1' {
        1
    } else if digit == '2' {
        2
    } else if digit == '3' {
        3
    } else if digit == '4' {
        4
    } else if digit == '5' {
        5
    } else if digit == '6' {
        6
    } else if digit == '7' {
        7
    } else if digit == '8' {
        8
    } else if digit == '9' {
        9
    } else {
        0
    }
}

/// The number that a text of decimal digits stands for.
pub open spec fn spec_number(text: Seq<char>) -> nat
    decreases text.len(),
{
    if text.len() == 0 {
        0
    } else {
        spec_number(text.drop_last()) * 10 + spec_digit_value(text.last())
    }
}

/// A number written in decimal reads back as itself, so no two numbers are
/// written alike. The text has a digit at least, and no zero in front of
/// another digit.
pub proof fn lemma_decimal_reads_back(number: nat)
    ensures
        spec_number(spec_decimal(number)) == number,
        spec_decimal(number).len() >= 1,
        spec_decimal(number).len() == 1 <==> number < 10,
        spec_decimal(number).len() > 1 ==> spec_decimal(number)[0] != '0',
    decreases number,
{
    if number < 10 {
        let text = spec_decimal(number);
        assert(text.drop_last() =~= Seq::<char>::empty());
        assert(spec_number(text.drop_last()) == 0);
    } else {
        lemma_decimal_reads_back(number / 10);
        let head = spec_decimal(number / 10);
        let text = head.push(spec_digit(number % 10));
        assert(text.drop_last() =~= head);
        assert(text.last() == spec_digit(number % 10));
        assert(text[0] == head[0]);
        if head.len() == 1 {
            assert(head =~= seq![spec_digit(number / 10)]);
        }
    }
}

fn digit_text(digit: u8) -> (text: &'static str)
    requires
        digit < 10,
    ensures
        text@ == seq![spec_digit(digit as nat)],
{
    proof {
        reveal_strlit("0");
        reveal_strlit("1");
        reveal_strlit("2");
        reveal_strlit("3");
        reveal_strlit("4");
        reveal_strlit("5");
        reveal_strlit("6");
        reveal_strlit("7");
        reveal_strlit("8");
        reveal_strlit("9");
    }
    let text = match digit {
        0 => "0",
        1 => "1",
        2 => "2",
        3 => "3",
        4 => "4",
        5 => "5",
        6 => "6",
        7 => "7",
        8 => "8",
        _ => "9",
    };
    assert(text@ =~= seq![spec_digit(digit as nat)]);
    text
}

/// Writes `number` in decimal.
pub fn decimal(number: u128) -> (text: String)
    ensures
        text@ == spec_decimal(number as nat),
    decreases number,
{
    if number < 10 {
        String::from_str(digit_text(number as u8))
    } else {
        let head = decimal(number / 10);
        let text = head.concat(digit_text((number % 10) as u8));
        assert(text@ =~= spec_decimal(number as nat));
        text
    }
}

} // verus!
