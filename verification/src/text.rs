//! Decimal numbers as text: what the resolver needs to read a port and to
//! write an address.

use vstd::prelude::*;

verus! {

/// The character of a decimal digit.
pub open spec fn digit_char(digit: nat) -> char {
    if digit == 0 {
        '0'
    } else if digit == 1 {
        '1'
    } else if digit == 2 {
        '2'
    } else if digit == 3 {
        '3'
    } else if digit == 4 {
        '4'
    } else if digit == 5 {
        '5'
    } else if digit == 6 {
        '6'
    } else if digit == 7 {
        '7'
    } else if digit == 8 {
        '8'
    } else {
        '9'
    }
}

/// Whether `c` is one of `'0'` to `'9'`.
pub open spec fn is_digit(c: char) -> bool {
    '0' <= c && c <= '9'
}

/// The value of the decimal digit `c`.
pub open spec fn digit_value(c: char) -> nat {
    (c as u32 - '0' as u32) as nat
}

/// The decimal notation of `n`, without sign or leading zeros.
pub open spec fn decimal_digits(n: nat) -> Seq<char>
    decreases n,
{
    if n < 10 {
        seq![digit_char(n)]
    } else {
        decimal_digits(n / 10).push(digit_char(n % 10))
    }
}

/// The number that a sequence of decimal digits denotes.
pub open spec fn decimal_value(digits: Seq<char>) -> nat
    decreases digits.len(),
{
    if digits.len() == 0 {
        0
    } else {
        decimal_value(digits.drop_last()) * 10 + digit_value(digits.last())
    }
}

/// Whether `text` is one or more decimal digits.
pub open spec fn is_decimal(text: Seq<char>) -> bool {
    text.len() > 0 && forall|i: int| 0 <= i < text.len() ==> is_digit(#[trigger] text[i])
}

/// `text` without one leading `'+'`.
pub open spec fn unsigned_part(text: Seq<char>) -> Seq<char> {
    if text.len() > 0 && text[0] == '+' {
        text.skip(1)
    } else {
        text
    }
}

/// The port that `text` denotes: an optional `'+'`, then decimal digits whose
/// value is at most 65535. Anything else denotes no port.
pub open spec fn port_number(text: Seq<char>) -> Option<u16> {
    let digits = unsigned_part(text);
    if is_decimal(digits) && decimal_value(digits) <= 0xFFFF {
        Some(decimal_value(digits) as u16)
    } else {
        None
    }
}

/// The text of one decimal digit.
fn digit_text(digit: u16) -> (text: &'static str)
    requires
        digit < 10,
    ensures
        text@ == seq![digit_char(digit as nat)],
{
    let text = match digit {
        0 => "0",
        1 => "1",
        2 => "2",
        3 => "3",
        4 => "4",
        5 => "5",
        6 => "6",
        7 => "7",
        8 => "8",
        _ => "9",
    };
    proof {
        reveal_strlit("0");
        reveal_strlit("1");
        reveal_strlit("2");
        reveal_strlit("3");
        reveal_strlit("4");
        reveal_strlit("5");
        reveal_strlit("6");
        reveal_strlit("7");
        reveal_strlit("8");
        reveal_strlit("9");
        assert(text@ =~= seq![digit_char(digit as nat)]);
    }
    text
}

/// Appends the decimal notation of `n` to `out`.
pub fn append_decimal(out: &mut String, n: u16)
    ensures
        final(out)@ == old(out)@ + decimal_digits(n as nat),
    decreases n,
{
    if n >= 10 {
        append_decimal(out, n / 10);
    }
    out.append(digit_text(n % 10));
    assert(final(out)@ =~= old(out)@ + decimal_digits(n as nat));
}

/// What is written can be read back: the decimal notation of a number is
/// made of digits, and they denote the number. So the notation of a port is
/// a port number, which is the port.
pub proof fn lemma_decimal_round_trip(n: nat)
    ensures
        is_decimal(decimal_digits(n)),
        decimal_value(decimal_digits(n)) == n,
        n <= 0xFFFF ==> port_number(decimal_digits(n)) == Some(n as u16),
    decreases n,
{
    let digits = decimal_digits(n);
    if n < 10 {
        assert(digits.drop_last() =~= Seq::<char>::empty());
        assert(decimal_value(digits.drop_last()) == 0);
    } else {
        lemma_decimal_round_trip(n / 10);
        assert(digits.drop_last() =~= decimal_digits(n / 10));
        assert forall|i: int| 0 <= i < digits.len() implies is_digit(#[trigger] digits[i]) by {
            if i < digits.len() - 1 {
                assert(digits[i] == decimal_digits(n / 10)[i]);
            }
        }
    }
    assert(digits[0] != '+');
}

/// The value of a run of digits, or 65536 where it is beyond the range of a
/// port.
spec fn capped_value(digits: Seq<char>) -> nat {
    if decimal_value(digits) > 0xFFFF {
        0x1_0000
    } else {
        decimal_value(digits)
    }
}

/// Reads a port number.
pub fn parse_port(text: &str) -> (port: Option<u16>)
    ensures
        port == port_number(text@),
{
    let ghost digits = unsigned_part(text@);
    let ghost start: int = text@.len() - digits.len();
    let mut at_first = true;
    let mut all_digits = true;
    let mut past_sign = false;
    let mut value: u32 = 0;
    for c in it: text.chars()
        invariant
            it.seq() == text@,
            digits == unsigned_part(text@),
            start == text@.len() - digits.len(),
            at_first == (it.index() == 0),
            past_sign == (it.index() > start),
            all_digits ==> forall|k: int|
                0 <= k < it.index() - start ==> is_digit(#[trigger] digits[k]),
            !all_digits ==> !is_decimal(digits),
            value <= 0x1_0000,
            all_digits && past_sign ==> value == capped_value(digits.take(it.index() - start)),
            !past_sign ==> value == 0,
    {
        let ghost index = it.index() as int;
        if at_first && c == '+' {
            assert(start == 1);
        } else {
            assert(index >= start);
            assert(digits[index - start] == c);
            if c >= '0' && c <= '9' {
                let digit: u32 = c as u32 - '0' as u32;
                proof {
                    let before = digits.take(index - start);
                    let after = digits.take(index - start + 1);
                    assert(after.drop_last() =~= before);
                    assert(after.last() == c);
                    assert(before.len() == 0 ==> decimal_value(before) == 0);
                }
                value = value * 10 + digit;
                if value > 0xFFFF {
                    value = 0x1_0000;
                }
            } else {
                assert(!is_digit(digits[index - start]));
                all_digits = false;
            }
            past_sign = true;
        }
        at_first = false;
    }
    assert(digits.take(digits.len() as int) =~= digits);
    if all_digits && past_sign && value <= 0xFFFF {
        Some(value as u16)
    } else {
        None
    }
}

} // verus!
