use vstd::prelude::*;

verus! {

/// The character of a decimal digit.
pub open spec fn digit_char(digit: int) -> char {
    if digit == 0 {
        '0'
    } else if digit == 1 {
        '1'
    } else if digit == 2 {
        '2'
    } else if digit == 3 {
        '3'
    } else if digit == 4 {
        '4'
    } else if digit == 5 {
        '5'
    } else if digit == 6 {
        '6'
    } else if digit == 7 {
        '7'
    } else if digit == 8 {
        '8'
    } else {
        '9'
    }
}

/// A number in decimal digits, without leading zeros.
pub open spec fn decimal(number: nat) -> Seq<char>
    decreases number,
{
    if number < 10 {
        seq![digit_char(number as int)]
    } else {
        decimal(number / 10).push(digit_char((number % 10) as int))
    }
}

/// A number in decimal digits, with a leading zero where it has one digit only.
pub open spec fn two_digits(number: nat) -> Seq<char> {
    if number < 10 {
        seq!['0'] + decimal(number)
    } else {
        decimal(number)
    }
}

/// Tells whether the character is one of the ten decimal digits.
pub open spec fn is_decimal_digit(c: char) -> bool {
    '0' <= c <= '9'
}

/// The text of one decimal digit.
fn digit_str(digit: u8) -> (text: &'static str)
    requires
        digit < 10,
    ensures
        text@ == seq![digit_char(digit as int)],
{
    proof {
        reveal_strlit("0");
        reveal_strlit("1");
        reveal_strlit("2");
        reveal_strlit("3");
        reveal_strlit("4");
        reveal_strlit("5");
        reveal_strlit("6");
        reveal_strlit("7");
        reveal_strlit("8");
        reveal_strlit("9");
    }
    let text = if digit == 0 {
        "0"
    } else if digit == 1 {
        "1"
    } else if digit == 2 {
        "2"
    } else if digit == 3 {
        "3"
    } else if digit == 4 {
        "4"
    } else if digit == 5 {
        "5"
    } else if digit == 6 {
        "6"
    } else if digit == 7 {
        "7"
    } else if digit == 8 {
        "8"
    } else {
        "9"
    };
    assert(text@ =~= seq![digit_char(digit as int)]);
    text
}

/// Writes a number in decimal digits.
pub fn decimal_string(number: u128) -> (text: String)
    ensures
        text@ == decimal(number as nat),
    decreases number,
{
    if number < 10 {
        digit_str(number as u8).to_owned()
    } else {
        let mut text = decimal_string(number / 10);
        text.append(digit_str((number % 10) as u8));
        assert(text@ =~= decimal(number as nat));
        text
    }
}

/// Writes a number in decimal digits, with a leading zero where it has one digit only.
pub fn two_digit_string(number: u128) -> (text: String)
    ensures
        text@ == two_digits(number as nat),
{
    if number < 10 {
        proof {
            reveal_strlit("0");
        }
        let mut text = "0".to_owned();
        text.append(digit_str(number as u8));
        assert(text@ =~= two_digits(number as nat));
        text
    } else {
        decimal_string(number)
    }
}

} // verus!
