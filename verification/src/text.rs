//! Decimal text for item ids: a verified formatter and parser.
//!
//! The bus and the web layer both speak of ids as decimal strings (log
//! lines quote the id, the item-lookup path parses one from the URL), so
//! the decimal representation is pinned down once, as a spec function,
//! and both directions are proved against it.

use vstd::prelude::*;
use vstd::arithmetic::div_mod::lemma_fundamental_div_mod;
use vstd::string::StringExecFns;

verus! {

/// The character for a single decimal digit.
pub open spec fn digit_char(d: nat) -> char {
    if d == 0 {
        '0'
    } else if d == 1 {
        '1'
    } else if d == 2 {
        '2'
    } else if d == 3 {
        '3'
    } else if d == 4 {
        '4'
    } else if d == 5 {
        '5'
    } else if d == 6 {
        '6'
    } else if d == 7 {
        '7'
    } else if d == 8 {
        '8'
    } else {
        '9'
    }
}

/// The decimal representation of `n`, most significant digit first, with
/// no leading zeroes (a single `'0'` for zero itself).
pub open spec fn spec_decimal(n: nat) -> Seq<char>
    decreases n,
{
    if n < 10 {
        seq![digit_char(n)]
    } else {
        spec_decimal(n / 10).push(digit_char(n % 10))
    }
}

/// The one-character string for a decimal digit.
fn digit_str(d: u8) -> (r: &'static str)
    requires
        d < 10,
    ensures
        r@ == seq![digit_char(d as nat)],
{
    proof {
        reveal_strlit("0");
        reveal_strlit("1");
        reveal_strlit("2");
        reveal_strlit("3");
        reveal_strlit("4");
        reveal_strlit("5");
        reveal_strlit("6");
        reveal_strlit("7");
        reveal_strlit("8");
        reveal_strlit("9");
    }
    let r: &'static str = match d {
        0 => "0",
        1 => "1",
        2 => "2",
        3 => "3",
        4 => "4",
        5 => "5",
        6 => "6",
        7 => "7",
        8 => "8",
        _ => "9",
    };
    proof {
        assert(r@ =~= seq![digit_char(d as nat)]);
    }
    r
}

/// Appends the decimal representation of `n` to `out`.
pub fn push_decimal(n: u32, out: &mut String)
    ensures
        final(out)@ == old(out)@ + spec_decimal(n as nat),
    decreases n,
{
    if n >= 10 {
        push_decimal(n / 10, out);
    }
    let d: u8 = (n % 10) as u8;
    let s = digit_str(d);
    out.append(s);
    proof {
        if n >= 10 {
            assert(spec_decimal(n as nat) =~= spec_decimal(n as nat / 10) + seq![
                digit_char(n as nat % 10),
            ]);
            assert(final(out)@ =~= old(out)@ + spec_decimal(n as nat));
        } else {
            assert(final(out)@ =~= old(out)@ + spec_decimal(n as nat));
        }
    }
}

/// The decimal representation of `n` as a fresh string.
pub fn decimal_string(n: u32) -> (r: String)
    ensures
        r@ == spec_decimal(n as nat),
{
    let mut out = String::new();
    push_decimal(n, &mut out);
    proof {
        assert(out@ =~= spec_decimal(n as nat));
    }
    out
}

/// Why a text failed to parse as a number.
#[derive(Copy, Clone, PartialEq, Eq, Structural, Debug)]
pub enum ParseError {
    /// The text was empty.
    Empty,
    /// A character was not a decimal digit.
    InvalidDigit,
    /// The number does not fit.
    Overflow,
}

/// Whether `c` is a decimal digit.
pub open spec fn is_digit_char(c: char) -> bool {
    48 <= c as u32 <= 57
}

/// The value of a decimal digit.
pub open spec fn digit_val(c: char) -> nat {
    (c as u32 - 48) as nat
}

/// Whether every character of `s` is a decimal digit.
pub open spec fn all_digits(s: Seq<char>) -> bool {
    forall|i: int| 0 <= i < s.len() ==> is_digit_char(#[trigger] s[i])
}

/// The number a sequence of decimal digits denotes.
pub open spec fn digits_value(s: Seq<char>) -> nat
    decreases s.len(),
{
    if s.len() == 0 {
        0
    } else {
        digits_value(s.drop_last()) * 10 + digit_val(s.last())
    }
}

/// The digit portion of a number text: everything past an optional
/// leading plus sign.
pub open spec fn spec_number_digits(s: Seq<char>) -> Seq<char> {
    if s.len() > 0 && s[0] == '+' {
        s.skip(1)
    } else {
        s
    }
}

/// Parses a decimal number with an optional leading plus sign, exactly
/// when the digits denote a value that fits in 32 bits.
pub fn parse_u32(text: &str) -> (r: Result<u32, ParseError>)
    ensures
        ({
            let digits = spec_number_digits(text@);
            &&& (text@.len() == 0 ==> r == Err::<u32, ParseError>(ParseError::Empty))
            &&& (text@.len() > 0 && digits.len() == 0 ==> r == Err::<u32, ParseError>(
                ParseError::InvalidDigit,
            ))
            &&& (digits.len() > 0 && !all_digits(digits) ==> r == Err::<u32, ParseError>(
                ParseError::InvalidDigit,
            ))
            &&& (digits.len() > 0 && all_digits(digits) && digits_value(digits) > u32::MAX ==> r
                == Err::<u32, ParseError>(ParseError::Overflow))
            &&& (digits.len() > 0 && all_digits(digits) && digits_value(digits) <= u32::MAX ==> (
            r matches Ok(n) && n == digits_value(digits)))
        }),
{
    let len = text.unicode_len();
    if len == 0 {
        return Err(ParseError::Empty);
    }
    let first = text.get_char(0);
    let start: usize = if first == '+' {
        1
    } else {
        0
    };
    if start == len {
        // the text was a lone plus sign
        return Err(ParseError::InvalidDigit);
    }
    let ghost digits = spec_number_digits(text@);
    proof {
        assert(digits =~= text@.subrange(start as int, len as int));
    }
    let mut value: u32 = 0;
    let mut overflowed = false;
    let mut i: usize = start;
    while i < len
        invariant
            start <= i <= len,
            len == text@.len(),
            start < len,
            spec_number_digits(text@) == text@.subrange(start as int, len as int),
            all_digits(text@.subrange(start as int, i as int)),
            !overflowed ==> value == digits_value(text@.subrange(start as int, i as int)),
            overflowed ==> digits_value(text@.subrange(start as int, i as int)) > u32::MAX,
        decreases len - i,
    {
        let c = text.get_char(i);
        let cv = c as u32;
        if cv < 48 || cv > 57 {
            proof {
                assert(!is_digit_char(spec_number_digits(text@)[i - start]));
            }
            return Err(ParseError::InvalidDigit);
        }
        let d = cv - 48;
        let wide: u64 = (value as u64) * 10 + (d as u64);
        proof {
            let prev = text@.subrange(start as int, i as int);
            let cur = text@.subrange(start as int, i + 1);
            assert(cur.drop_last() =~= prev);
            assert(cur.last() == text@[i as int]);
        }
        if !overflowed {
            if wide > 0xFFFFFFFFu64 {
                overflowed = true;
            } else {
                value = wide as u32;
            }
        }
        i += 1;
    }
    proof {
        assert(digits =~= text@.subrange(start as int, len as int));
    }
    if overflowed {
        Err(ParseError::Overflow)
    } else {
        Ok(value)
    }
}

proof fn lemma_digit_char_val(d: nat)
    requires
        d < 10,
    ensures
        is_digit_char(digit_char(d)),
        digit_val(digit_char(d)) == d,
{
}

/// Parsing inverts printing: the decimal representation of a number is
/// all digits, is never empty, never starts with a plus sign, and
/// denotes the number itself.
pub proof fn lemma_decimal_round_trip(n: nat)
    ensures
        spec_decimal(n).len() >= 1,
        all_digits(spec_decimal(n)),
        spec_number_digits(spec_decimal(n)) == spec_decimal(n),
        digits_value(spec_decimal(n)) == n,
    decreases n,
{
    if n < 10 {
        lemma_digit_char_val(n);
        let s = spec_decimal(n);
        assert(s =~= seq![digit_char(n)]);
        assert(s.drop_last() =~= Seq::<char>::empty());
        assert(digits_value(s.drop_last()) == 0);
        assert(s.last() == digit_char(n));
    } else {
        lemma_decimal_round_trip(n / 10);
        lemma_digit_char_val(n % 10);
        let rest = spec_decimal(n / 10);
        let last = digit_char(n % 10);
        assert(rest.push(last).drop_last() =~= rest);
        assert(rest.push(last).last() == last);
        lemma_fundamental_div_mod(n as int, 10);
        assert forall|i: int| 0 <= i < rest.push(last).len() implies is_digit_char(
            #[trigger] rest.push(last)[i],
        ) by {
            if i < rest.len() {
                assert(rest.push(last)[i] == rest[i]);
            } else {
                assert(rest.push(last)[i] == last);
            }
        }
    }
    assert(!is_digit_char('+'));
    assert(is_digit_char(spec_decimal(n)[0]));
}

} // verus!
