//! Decimal notation of unsigned integers: rendering and parsing.

use vstd::prelude::*;

verus! {

/// Why a piece of text is not an unsigned decimal number.
#[derive(Clone, Copy, Debug, PartialEq, Eq, Structural)]
pub enum IntErrorKind {
    /// The text is empty.
    Empty,
    /// A character that is no decimal digit was met.
    InvalidDigit,
    /// The number does not fit the target type.
    Overflow,
}

/// Whether `c` is one of the ten decimal digits.
pub open spec fn is_digit(c: char) -> bool {
    '0' <= c && c <= '9'
}

/// The number that a decimal digit stands for.
pub open spec fn digit_value(c: char) -> nat
    recommends
        is_digit(c),
{
    (c as u32 - '0' as u32) as nat
}

/// The digit that stands for a number below ten.
pub open spec fn digit_char(d: nat) -> char
    recommends
        d < 10,
{
    if d == 0 {
        '0'
    } else if d == 1 {
        '1'
    } else if d == 2 {
        '2'
    } else if d == 3 {
        '3'
    } else if d == 4 {
        '4'
    } else if d == 5 {
        '5'
    } else if d == 6 {
        '6'
    } else if d == 7 {
        '7'
    } else if d == 8 {
        '8'
    } else {
        '9'
    }
}

/// The shortest decimal notation of `n`.
pub open spec fn decimal_digits(n: nat) -> Seq<char>
    decreases n,
{
    if n < 10 {
        seq![digit_char(n)]
    } else {
        decimal_digits(n / 10).push(digit_char(n % 10))
    }
}

/// Reads `digits` from left to right as a decimal number no greater than
/// `max`. The first offending character decides the error: one that is no
/// digit gives `InvalidDigit`, a digit that takes the value above `max` gives
/// `Overflow`.
pub open spec fn scan_digits(digits: Seq<char>, max: nat) -> Result<nat, IntErrorKind>
    decreases digits.len(),
{
    if digits.len() == 0 {
        Ok(0)
    } else {
        match scan_digits(digits.drop_last(), max) {
            Err(e) => Err(e),
            Ok(v) => if !is_digit(digits.last()) {
                Err(IntErrorKind::InvalidDigit)
            } else if v * 10 + digit_value(digits.last()) > max {
                Err(IntErrorKind::Overflow)
            } else {
                Ok(v * 10 + digit_value(digits.last()))
            },
        }
    }
}

/// The digits of a number's notation: the text without one leading `+`, when
/// something follows that sign.
pub open spec fn unsigned_part(text: Seq<char>) -> Seq<char> {
    if text.len() > 1 && text[0] == '+' {
        text.skip(1)
    } else {
        text
    }
}

/// What `text` denotes as an unsigned decimal number no greater than `max`.
pub open spec fn parse_decimal(text: Seq<char>, max: nat) -> Result<nat, IntErrorKind> {
    if text.len() == 0 {
        Err(IntErrorKind::Empty)
    } else {
        scan_digits(unsigned_part(text), max)
    }
}

/// The value of a decimal digit, or `None` for any other character.
pub fn digit_of(c: char) -> (d: Option<u8>)
    ensures
        is_digit(c) ==> d == Some(digit_value(c) as u8),
        !is_digit(c) ==> d is None,
{
    if '0' <= c && c <= '9' {
        Some((c as u32 - '0' as u32) as u8)
    } else {
        None
    }
}

/// The character of a decimal digit.
pub fn char_of_digit(d: u8) -> (c: char)
    requires
        d < 10,
    ensures
        c == digit_char(d as nat),
        is_digit(c),
        digit_value(c) == d,
{
    match d {
        0 => '0',
        1 => '1',
        2 => '2',
        3 => '3',
        4 => '4',
        5 => '5',
        6 => '6',
        7 => '7',
        8 => '8',
        _ => '9',
    }
}

/// Parses `chars[from..to]` as a `usize` in decimal notation.
pub fn parse_usize(chars: &Vec<char>, from: usize, to: usize) -> (r: Result<usize, IntErrorKind>)
    requires
        from <= to <= chars@.len(),
    ensures
        match parse_decimal(chars@.subrange(from as int, to as int), usize::MAX as nat) {
            Ok(v) => r == Ok::<usize, IntErrorKind>(v as usize),
            Err(e) => r == Err::<usize, IntErrorKind>(e),
        },
{
    let ghost text = chars@.subrange(from as int, to as int);
    if from == to {
        return Err(IntErrorKind::Empty);
    }
    let start: usize = if to - from > 1 && chars[from] == '+' {
        from + 1
    } else {
        from
    };
    let ghost digits = chars@.subrange(start as int, to as int);
    assert(digits =~= unsigned_part(text));
    let mut acc: usize = 0;
    let mut i: usize = start;
    while i < to
        invariant
            start <= i <= to <= chars@.len(),
            digits == chars@.subrange(start as int, to as int),
            text == chars@.subrange(from as int, to as int),
            text.len() > 0,
            digits == unsigned_part(text),
            scan_digits(digits.take(i - start), usize::MAX as nat) == Ok::<nat, IntErrorKind>(
                acc as nat,
            ),
        decreases to - i,
    {
        let ghost before = digits.take(i - start);
        let ghost upto = digits.take(i - start + 1);
        assert(upto.drop_last() =~= before);
        assert(upto.last() == chars@[i as int]);
        let d = match digit_of(chars[i]) {
            Some(d) => d,
            None => {
                proof {
                    lemma_scan_error_stays(digits, (i - start + 1) as int, usize::MAX as nat);
                }
                return Err(IntErrorKind::InvalidDigit);
            },
        };
        let next = match acc.checked_mul(10) {
            Some(m) => m.checked_add(d as usize),
            None => None,
        };
        match next {
            Some(v) => {
                acc = v;
            },
            None => {
                proof {
                    lemma_scan_error_stays(digits, (i - start + 1) as int, usize::MAX as nat);
                }
                return Err(IntErrorKind::Overflow);
            },
        }
        i += 1;
    }
    assert(digits.take(to - start) =~= digits);
    Ok(acc)
}

/// An error met while reading a prefix is the error of the whole text.
pub proof fn lemma_scan_error_stays(digits: Seq<char>, n: int, max: nat)
    requires
        0 <= n <= digits.len(),
        scan_digits(digits.take(n), max) is Err,
    ensures
        scan_digits(digits, max) == scan_digits(digits.take(n), max),
    decreases digits.len() - n,
{
    if n < digits.len() {
        assert(digits.take(n + 1).drop_last() =~= digits.take(n));
        lemma_scan_error_stays(digits, n + 1, max);
    } else {
        assert(digits.take(n) =~= digits);
    }
}

/// The notation of a number is made of digits, at least one.
pub proof fn lemma_decimal_digits_are_digits(n: nat)
    ensures
        decimal_digits(n).len() >= 1,
        forall|i: int| 0 <= i < decimal_digits(n).len() ==> is_digit(#[trigger] decimal_digits(n)[i]),
    decreases n,
{
    if n >= 10 {
        lemma_decimal_digits_are_digits(n / 10);
    }
}

/// Reading the notation of a number gives the number back.
pub proof fn lemma_parse_decimal_digits(n: nat, max: nat)
    requires
        n <= max,
    ensures
        scan_digits(decimal_digits(n), max) == Ok::<nat, IntErrorKind>(n),
        parse_decimal(decimal_digits(n), max) == Ok::<nat, IntErrorKind>(n),
    decreases n,
{
    let text = decimal_digits(n);
    lemma_decimal_digits_are_digits(n);
    assert(is_digit(text[0]));
    assert(unsigned_part(text) == text);
    if n < 10 {
        assert(text.drop_last() =~= Seq::<char>::empty());
        assert(scan_digits(text.drop_last(), max) == Ok::<nat, IntErrorKind>(0));
        assert(text.last() == digit_char(n));
        assert(digit_value(digit_char(n)) == n);
    } else {
        lemma_parse_decimal_digits(n / 10, max);
        assert(text.drop_last() =~= decimal_digits(n / 10));
        assert(scan_digits(text.drop_last(), max) == Ok::<nat, IntErrorKind>(n / 10));
        assert(text.last() == digit_char(n % 10));
        assert(digit_value(digit_char(n % 10)) == n % 10);
        assert((n / 10) * 10 + n % 10 == n);
    }
    assert(scan_digits(text, max) == Ok::<nat, IntErrorKind>(n));
}

/// Appends the decimal notation of `n` to `out`.
pub fn push_decimal(out: &mut String, n: usize)
    ensures
        final(out)@ == old(out)@ + decimal_digits(n as nat),
    decreases n,
{
    if n >= 10 {
        push_decimal(out, n / 10);
    }
    let d = (n % 10) as u8;
    out.push(char_of_digit(d));
    assert(out@ =~= old(out)@ + decimal_digits(n as nat));
}

} // verus!
