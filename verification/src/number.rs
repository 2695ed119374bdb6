//! Decimal integers as text: reading an `i32` or a `usize` from a string.

use vstd::prelude::*;
use vstd::std_specs::iter::IteratorSpec;

verus! {

/// Why a text is not the decimal form of an integer of the wanted type.
#[derive(Clone, Copy, Debug, PartialEq, Eq, Structural)]
pub enum IntErrorKind {
    /// The text is empty.
    Empty,
    /// A character is not a decimal digit, or a sign stands alone.
    InvalidDigit,
    /// The number is above the largest value of the type.
    PosOverflow,
    /// The number is below the smallest value of the type.
    NegOverflow,
}

impl IntErrorKind {
    /// The text that describes the failure.
    pub open spec fn message_spec(self) -> Seq<char> {
        match self {
            IntErrorKind::Empty => "cannot parse integer from empty string"@,
            IntErrorKind::InvalidDigit => "invalid digit found in string"@,
            IntErrorKind::PosOverflow => "number too large to fit in target type"@,
            IntErrorKind::NegOverflow => "number too small to fit in target type"@,
        }
    }

    /// The text that describes the failure.
    pub fn message(&self) -> (r: String)
        ensures
            r@ == self.message_spec(),
    {
        match self {
            IntErrorKind::Empty => "cannot parse integer from empty string".to_owned(),
            IntErrorKind::InvalidDigit => "invalid digit found in string".to_owned(),
            IntErrorKind::PosOverflow => "number too large to fit in target type".to_owned(),
            IntErrorKind::NegOverflow => "number too small to fit in target type".to_owned(),
        }
    }
}

/// `c` is one of the ten ASCII digits.
pub open spec fn is_digit(c: char) -> bool {
    '0' <= c && c <= '9'
}

/// The number that the digit `c` stands for.
pub open spec fn digit_value(c: char) -> int {
    c as int - '0' as int
}

/// Reading `digits` from the left with the sign already taken off: each digit
/// appends to the number read so far, away from zero in the direction of the
/// sign. The first character that is no digit, or the first digit that takes
/// the number out of `min ..= max`, decides the error.
pub open spec fn read_digits(digits: Seq<char>, negative: bool, min: int, max: int) -> Result<
    int,
    IntErrorKind,
>
    decreases digits.len(),
{
    if digits.len() == 0 {
        Ok(0)
    } else {
        match read_digits(digits.drop_last(), negative, min, max) {
            Err(e) => Err(e),
            Ok(acc) => {
                let c = digits.last();
                let next = if negative {
                    acc * 10 - digit_value(c)
                } else {
                    acc * 10 + digit_value(c)
                };
                if !is_digit(c) {
                    Err(IntErrorKind::InvalidDigit)
                } else if next > max {
                    Err(IntErrorKind::PosOverflow)
                } else if next < min {
                    Err(IntErrorKind::NegOverflow)
                } else {
                    Ok(next)
                }
            },
        }
    }
}

/// `s` has a sign in front that is taken off before its digits are read: a
/// `+`, or a `-` where the type is signed.
pub open spec fn has_sign(s: Seq<char>, signed: bool) -> bool {
    s.len() > 0 && (s[0] == '+' || (signed && s[0] == '-'))
}

/// What a text reads as: an optional sign, then one or more decimal digits,
/// the whole within `min ..= max`. An unsigned type takes `+` for a sign and
/// `-` for a character that is no digit.
pub open spec fn parse_int_spec(s: Seq<char>, signed: bool, min: int, max: int) -> Result<
    int,
    IntErrorKind,
> {
    if s.len() == 0 {
        Err(IntErrorKind::Empty)
    } else if s.len() == 1 && (s[0] == '+' || s[0] == '-') {
        Err(IntErrorKind::InvalidDigit)
    } else if has_sign(s, signed) {
        read_digits(s.subrange(1, s.len() as int), s[0] == '-', min, max)
    } else {
        read_digits(s, false, min, max)
    }
}

/// What a text reads as when an `i32` is wanted.
pub open spec fn parse_i32_spec(s: Seq<char>) -> Result<int, IntErrorKind> {
    parse_int_spec(s, true, i32::MIN as int, i32::MAX as int)
}

/// What a text reads as when a count is wanted: an `i32` that is not
/// negative. The text is read as an `i32`, sign and all, so that `-0` is the
/// count 0; a number below zero is below the smallest count.
pub open spec fn parse_count_spec(s: Seq<char>) -> Result<int, IntErrorKind> {
    match parse_i32_spec(s) {
        Ok(v) => if v >= 0 {
            Ok(v)
        } else {
            Err(IntErrorKind::NegOverflow)
        },
        Err(e) => Err(e),
    }
}

/// What a text reads as when a `usize` is wanted.
pub open spec fn parse_usize_spec(s: Seq<char>) -> Result<int, IntErrorKind> {
    parse_int_spec(s, false, 0, usize::MAX as int)
}

/// Every character of `s` is a digit.
pub open spec fn all_digits(s: Seq<char>) -> bool {
    forall|i: int| 0 <= i < s.len() ==> is_digit(#[trigger] s[i])
}

/// The number that a row of digits stands for.
pub open spec fn digits_value(s: Seq<char>) -> int
    decreases s.len(),
{
    if s.len() == 0 {
        0
    } else {
        digits_value(s.drop_last()) * 10 + digit_value(s.last())
    }
}

/// The number that a row of digits stands for behind a sign.
pub open spec fn signed_value(s: Seq<char>, negative: bool) -> int {
    if negative {
        -digits_value(s)
    } else {
        digits_value(s)
    }
}

/// Reading succeeds exactly on a row of digits whose number, with its sign,
/// lies within the range, and gives that number.
pub proof fn lemma_read_digits_ok(digits: Seq<char>, negative: bool, min: int, max: int)
    requires
        min <= 0 <= max,
    ensures
        read_digits(digits, negative, min, max) is Ok <==> all_digits(digits) && min
            <= signed_value(digits, negative) <= max,
        read_digits(digits, negative, min, max) matches Ok(v) ==> v == signed_value(
            digits,
            negative,
        ),
        all_digits(digits) ==> digits_value(digits) >= 0,
    decreases digits.len(),
{
    if digits.len() > 0 {
        let front = digits.drop_last();
        lemma_read_digits_ok(front, negative, min, max);
        if all_digits(digits) {
            assert forall|i: int| 0 <= i < front.len() implies is_digit(#[trigger] front[i]) by {
                assert(front[i] == digits[i]);
            }
            assert(is_digit(digits.last()));
        }
        if read_digits(digits, negative, min, max) is Ok {
            assert forall|i: int| 0 <= i < digits.len() implies is_digit(#[trigger] digits[i]) by {
                if i < front.len() {
                    assert(digits[i] == front[i]);
                }
            }
        }
    }
}

/// A text reads as a number exactly when it is an optional sign and then one
/// or more digits whose number, with the sign, lies within the range.
pub proof fn lemma_parse_int_ok(s: Seq<char>, signed: bool, min: int, max: int)
    requires
        min <= 0 <= max,
    ensures
        ({
            let digits = if has_sign(s, signed) {
                s.subrange(1, s.len() as int)
            } else {
                s
            };
            let negative = has_sign(s, signed) && s[0] == '-';
            &&& parse_int_spec(s, signed, min, max) is Ok <==> digits.len() > 0 && all_digits(
                digits,
            ) && min <= signed_value(digits, negative) <= max
            &&& parse_int_spec(s, signed, min, max) matches Ok(v) ==> v == signed_value(
                digits,
                negative,
            )
        }),
{
    let digits = if has_sign(s, signed) {
        s.subrange(1, s.len() as int)
    } else {
        s
    };
    let negative = has_sign(s, signed) && s[0] == '-';
    lemma_read_digits_ok(digits, negative, min, max);
    if s.len() == 1 && (s[0] == '+' || s[0] == '-') && !has_sign(s, signed) {
        assert(!is_digit(s[0]));
    }
}

/// An error met while reading a prefix is the error of the whole.
pub proof fn lemma_read_digits_error_stays(
    digits: Seq<char>,
    negative: bool,
    min: int,
    max: int,
    k: int,
)
    requires
        0 <= k <= digits.len(),
        read_digits(digits.take(k), negative, min, max) is Err,
    ensures
        read_digits(digits, negative, min, max) == read_digits(digits.take(k), negative, min, max),
    decreases digits.len(),
{
    if k == digits.len() {
        assert(digits.take(k) =~= digits);
    } else {
        assert(digits.drop_last().take(k) =~= digits.take(k));
        lemma_read_digits_error_stays(digits.drop_last(), negative, min, max, k);
    }
}

/// Reads a decimal integer within `min ..= max` from `s`.
fn parse_int(s: &str, signed: bool, min: i128, max: i128) -> (r: Result<i128, IntErrorKind>)
    requires
        -0x1_0000_0000_0000_0000 <= min <= 0 <= max <= 0x1_0000_0000_0000_0000,
    ensures
        match r {
            Ok(v) => parse_int_spec(s@, signed, min as int, max as int) == Ok::<int, IntErrorKind>(
                v as int,
            ) && min <= v <= max,
            Err(e) => parse_int_spec(s@, signed, min as int, max as int) == Err::<
                int,
                IntErrorKind,
            >(e),
        },
{
    broadcast use vstd::string::group_string_axioms;

    let mut it = s.chars();
    let first = it.next();
    let mut negative = false;
    let mut pending = first;
    match first {
        None => {
            return Err(IntErrorKind::Empty);
        },
        Some(c) => {
            if c == '+' || c == '-' {
                let second = it.next();
                if second.is_none() {
                    return Err(IntErrorKind::InvalidDigit);
                }
                if c == '+' || signed {
                    negative = c == '-';
                    pending = second;
                } else {
                    proof {
                        let one = s@.take(1);
                        assert(read_digits(one.drop_last(), false, min as int, max as int) is Ok);
                        lemma_read_digits_error_stays(s@, false, min as int, max as int, 1);
                    }
                    return Err(IntErrorKind::InvalidDigit);
                }
            }
        },
    }
    let ghost digits = if has_sign(s@, signed) {
        s@.subrange(1, s@.len() as int)
    } else {
        s@
    };
    let ghost mut n: int = 0;
    let mut acc: i128 = 0;
    loop
        invariant
            0 <= n <= digits.len(),
            -0x1_0000_0000_0000_0000 <= min <= 0 <= max <= 0x1_0000_0000_0000_0000,
            min <= acc <= max,
            parse_int_spec(s@, signed, min as int, max as int) == read_digits(
                digits,
                negative,
                min as int,
                max as int,
            ),
            match pending {
                Some(c) => n < digits.len() && c == digits[n] && it.remaining()
                    == digits.subrange(n + 1, digits.len() as int),
                None => n == digits.len(),
            },
            read_digits(digits.take(n), negative, min as int, max as int) == Ok::<
                int,
                IntErrorKind,
            >(acc as int),
        decreases digits.len() - n + (if pending is Some { 1int } else { 0int }),
    {
        match pending {
            None => {
                assert(digits.take(n) =~= digits);
                return Ok(acc);
            },
            Some(c) => {
                assert(digits.take(n + 1).drop_last() =~= digits.take(n));
                if !('0' <= c && c <= '9') {
                    proof {
                        lemma_read_digits_error_stays(
                            digits,
                            negative,
                            min as int,
                            max as int,
                            n + 1,
                        );
                    }
                    return Err(IntErrorKind::InvalidDigit);
                }
                let d: i128 = (c as u32 - '0' as u32) as i128;
                let next: i128 = if negative {
                    acc * 10 - d
                } else {
                    acc * 10 + d
                };
                if next > max || next < min {
                    proof {
                        lemma_read_digits_error_stays(
                            digits,
                            negative,
                            min as int,
                            max as int,
                            n + 1,
                        );
                    }
                    if next > max {
                        return Err(IntErrorKind::PosOverflow);
                    }
                    return Err(IntErrorKind::NegOverflow);
                }
                acc = next;
                pending = it.next();
                proof {
                    n = n + 1;
                }
            },
        }
    }
}

/// Reads a decimal `i32` from `s`: an optional `+` or `-`, then digits.
pub fn parse_i32(s: &str) -> (r: Result<i32, IntErrorKind>)
    ensures
        match r {
            Ok(v) => parse_i32_spec(s@) == Ok::<int, IntErrorKind>(v as int),
            Err(e) => parse_i32_spec(s@) == Err::<int, IntErrorKind>(e),
        },
{
    match parse_int(s, true, i32::MIN as i128, i32::MAX as i128) {
        Ok(v) => Ok(v as i32),
        Err(e) => Err(e),
    }
}

/// Reads a count from `s`: a decimal `i32`, read as `parse_i32` reads it,
/// that is not negative.
pub fn parse_count(s: &str) -> (r: Result<i32, IntErrorKind>)
    ensures
        match r {
            Ok(v) => parse_count_spec(s@) == Ok::<int, IntErrorKind>(v as int) && v >= 0,
            Err(e) => parse_count_spec(s@) == Err::<int, IntErrorKind>(e),
        },
{
    match parse_i32(s) {
        Ok(v) => if v >= 0 {
            Ok(v)
        } else {
            Err(IntErrorKind::NegOverflow)
        },
        Err(e) => Err(e),
    }
}

/// Reads a decimal `usize` from `s`: an optional `+`, then digits.
pub fn parse_usize(s: &str) -> (r: Result<usize, IntErrorKind>)
    ensures
        match r {
            Ok(v) => parse_usize_spec(s@) == Ok::<int, IntErrorKind>(v as int),
            Err(e) => parse_usize_spec(s@) == Err::<int, IntErrorKind>(e),
        },
{
    match parse_int(s, false, 0, usize::MAX as i128) {
        Ok(v) => Ok(v as usize),
        Err(e) => Err(e),
    }
}

/// The digit that stands for `d`, a number below ten.
pub open spec fn digit_char(d: int) -> char {
    (d + '0' as int) as u8 as char
}

/// The decimal digits of `n`, without leading zeros.
pub open spec fn nat_text(n: nat) -> Seq<char>
    decreases n,
{
    if n < 10 {
        seq![digit_char(n as int)]
    } else {
        nat_text(n / 10).push(digit_char((n % 10) as int))
    }
}

/// The decimal form of `n`: a `-` in front of a negative number, then the
/// digits without leading zeros.
pub open spec fn int_text(n: int) -> Seq<char> {
    if n < 0 {
        seq!['-'] + nat_text((-n) as nat)
    } else {
        nat_text(n as nat)
    }
}

/// The text of one digit.
fn digit_text(d: u8) -> (r: &'static str)
    requires
        d < 10,
    ensures
        r@ == seq![digit_char(d as int)],
{
    proof {
        reveal_strlit("0");
        reveal_strlit("1");
        reveal_strlit("2");
        reveal_strlit("3");
        reveal_strlit("4");
        reveal_strlit("5");
        reveal_strlit("6");
        reveal_strlit("7");
        reveal_strlit("8");
        reveal_strlit("9");
    }
    let r = match d {
        0 => "0",
        1 => "1",
        2 => "2",
        3 => "3",
        4 => "4",
        5 => "5",
        6 => "6",
        7 => "7",
        8 => "8",
        _ => "9",
    };
    r
}

/// The digits of `n` where `n` is not zero, and nothing where it is: what is
/// still to be written in front of the digits that stand already.
spec fn leading_text(n: nat) -> Seq<char> {
    if n > 0 {
        nat_text(n)
    } else {
        Seq::empty()
    }
}

/// Writes `n` in decimal.
pub fn format_i32(n: i32) -> (r: String)
    ensures
        r@ == int_text(n as int),
{
    let mut rest: u32 = if n < 0 {
        (-(n as i64)) as u32
    } else {
        n as u32
    };
    let ghost magnitude = rest as nat;
    let mut text = digit_text((rest % 10) as u8).to_owned();
    rest = rest / 10;
    while rest > 0
        invariant
            nat_text(magnitude) == leading_text(rest as nat) + text@,
        decreases rest,
    {
        let digit = digit_text((rest % 10) as u8);
        text = digit.to_owned().concat(text.as_str());
        rest = rest / 10;
    }
    if n < 0 {
        proof {
            reveal_strlit("-");
        }
        text = "-".to_owned().concat(text.as_str());
    }
    text
}

} // verus!
