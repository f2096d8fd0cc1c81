//! Decimal numbers as text: writing them out digit by digit and reading
//! them back from bytes.

use vstd::prelude::*;
use vstd::string::StringExecFns;

verus! {

/// The character that stands for the digit `d`.
pub open spec fn digit_char(d: int) -> char {
    if d == 0 {
        '0'
    } else if d == 1 {
        '1'
    } else if d == 2 {
        '2'
    } else if d == 3 {
        '3'
    } else if d == 4 {
        '4'
    } else if d == 5 {
        '5'
    } else if d == 6 {
        '6'
    } else if d == 7 {
        '7'
    } else if d == 8 {
        '8'
    } else {
        '9'
    }
}

/// The digit that `c` stands for, if it is a decimal digit.
pub open spec fn char_digit(c: char) -> Option<int> {
    if c == '0' {
        Some(0)
    } else if c == '1' {
        Some(1)
    } else if c == '2' {
        Some(2)
    } else if c == '3' {
        Some(3)
    } else if c == '4' {
        Some(4)
    } else if c == '5' {
        Some(5)
    } else if c == '6' {
        Some(6)
    } else if c == '7' {
        Some(7)
    } else if c == '8' {
        Some(8)
    } else if c == '9' {
        Some(9)
    } else {
        None
    }
}

/// `n` in decimal, without sign or padding.
pub open spec fn decimal_text(n: nat) -> Seq<char>
    decreases n,
{
    if n < 10 {
        seq![digit_char(n as int)]
    } else {
        decimal_text(n / 10).push(digit_char((n % 10) as int))
    }
}

/// `n` in decimal, padded with a leading zero to at least two digits.
pub open spec fn padded2_text(n: nat) -> Seq<char> {
    if n < 10 {
        seq!['0', digit_char(n as int)]
    } else {
        decimal_text(n)
    }
}

/// `n` in exactly three decimal digits; meant for `n < 1000`.
pub open spec fn padded3_text(n: nat) -> Seq<char> {
    seq![
        digit_char((n / 100) as int),
        digit_char(((n / 10) % 10) as int),
        digit_char((n % 10) as int),
    ]
}

/// `seconds` as minutes and seconds, `mm:ss`, each with at least two digits.
pub open spec fn minutes_seconds_text(seconds: nat) -> Seq<char> {
    padded2_text(seconds / 60) + seq![':'] + padded2_text(seconds % 60)
}

/// A two-digit number below 100 is its tens digit followed by its units digit.
pub(crate) proof fn lemma_padded2_below_100(n: nat)
    requires
        n < 100,
    ensures
        padded2_text(n) == seq![digit_char((n / 10) as int), digit_char((n % 10) as int)],
{
    if n >= 10 {
        reveal_with_fuel(decimal_text, 2);
        assert(decimal_text(n) =~= seq![
            digit_char((n / 10) as int),
            digit_char((n % 10) as int),
        ]);
    }
}

/// The one-character string of the digit `d`.
pub fn digit_text(d: u8) -> (r: &'static str)
    requires
        d < 10,
    ensures
        r@ == seq![digit_char(d as int)],
{
    proof {
        reveal_strlit("0");
        reveal_strlit("1");
        reveal_strlit("2");
        reveal_strlit("3");
        reveal_strlit("4");
        reveal_strlit("5");
        reveal_strlit("6");
        reveal_strlit("7");
        reveal_strlit("8");
        reveal_strlit("9");
    }
    let r = if d == 0 {
        "0"
    } else if d == 1 {
        "1"
    } else if d == 2 {
        "2"
    } else if d == 3 {
        "3"
    } else if d == 4 {
        "4"
    } else if d == 5 {
        "5"
    } else if d == 6 {
        "6"
    } else if d == 7 {
        "7"
    } else if d == 8 {
        "8"
    } else {
        "9"
    };
    assert(r@ =~= seq![digit_char(d as int)]);
    r
}

/// Writes `n` in decimal, without sign or padding.
pub fn decimal(n: u64) -> (r: String)
    ensures
        r@ == decimal_text(n as nat),
    decreases n,
{
    if n < 10 {
        String::from_str(digit_text(n as u8))
    } else {
        let mut s = decimal(n / 10);
        s.append(digit_text((n % 10) as u8));
        assert(s@ =~= decimal_text((n / 10) as nat).push(digit_char((n % 10) as int)));
        s
    }
}

/// Writes `n` in decimal with at least two digits, as `{:02}` does.
pub fn padded2(n: u64) -> (r: String)
    ensures
        r@ == padded2_text(n as nat),
{
    if n < 10 {
        let mut s = String::from_str(digit_text(0));
        s.append(digit_text(n as u8));
        assert(s@ =~= seq!['0', digit_char(n as int)]);
        s
    } else {
        decimal(n)
    }
}

/// Writes `n` in exactly three digits.
pub fn padded3(n: u32) -> (r: String)
    requires
        n < 1000,
    ensures
        r@ == padded3_text(n as nat),
{
    let mut s = String::from_str(digit_text((n / 100) as u8));
    s.append(digit_text(((n / 10) % 10) as u8));
    s.append(digit_text((n % 10) as u8));
    assert(s@ =~= padded3_text(n as nat));
    s
}

/// Writes `seconds` as minutes and seconds, `mm:ss`.
pub fn minutes_seconds(seconds: u64) -> (r: String)
    ensures
        r@ == minutes_seconds_text(seconds as nat),
{
    let mut text = padded2(seconds / 60);
    text.append(":");
    text.append(padded2(seconds % 60).as_str());
    proof {
        reveal_strlit(":");
        assert(text@ =~= minutes_seconds_text(seconds as nat));
    }
    text
}

/// Whether `b` is the byte of an ASCII decimal digit.
pub open spec fn is_digit_byte(b: u8) -> bool {
    48 <= b <= 57
}

/// Whether every byte of `s` is an ASCII decimal digit.
pub open spec fn all_digit_bytes(s: Seq<u8>) -> bool {
    forall|i: int| 0 <= i < s.len() ==> is_digit_byte(#[trigger] s[i])
}

/// The number that the digit bytes `s` write, most significant digit first.
pub open spec fn digits_value(s: Seq<u8>) -> nat
    decreases s.len(),
{
    if s.len() == 0 {
        0
    } else {
        (digits_value(s.drop_last()) * 10 + (s.last() - 48)) as nat
    }
}

/// The digits of an unsigned number written as `s`: `s` itself, or `s`
/// without one leading plus sign.
pub open spec fn unsigned_digits(s: Seq<u8>) -> Seq<u8> {
    if s.len() > 0 && s[0] == 43 {
        s.skip(1)
    } else {
        s
    }
}

/// Reads `s` as an unsigned 32-bit decimal number: an optional plus sign,
/// then one or more digits and nothing else, with a value that fits.
pub open spec fn u32_reading(s: Seq<u8>) -> Option<u32> {
    let digits = unsigned_digits(s);
    if digits.len() > 0 && all_digit_bytes(digits) && digits_value(digits) <= u32::MAX {
        Some(digits_value(digits) as u32)
    } else {
        None
    }
}

/// Appending digits never lowers the value written.
proof fn lemma_digits_value_prefix(s: Seq<u8>, k: int)
    requires
        0 <= k <= s.len(),
        all_digit_bytes(s),
    ensures
        digits_value(s.take(k)) <= digits_value(s),
    decreases s.len() - k,
{
    if k < s.len() {
        lemma_digits_value_prefix(s, k + 1);
        assert(s.take(k + 1).drop_last() =~= s.take(k));
        assert(is_digit_byte(s[k]));
    } else {
        assert(s.take(k) =~= s);
    }
}

/// Reads `bytes` as an unsigned 32-bit decimal number, as `str::parse::<u32>`
/// reads text.
pub fn parse_u32(bytes: &[u8]) -> (r: Option<u32>)
    ensures
        r == u32_reading(bytes@),
{
    let n = bytes.len();
    let start: usize = if n > 0 && bytes[0] == 43 {
        1
    } else {
        0
    };
    let ghost digits = unsigned_digits(bytes@);
    assert(digits =~= bytes@.skip(start as int));
    if start == n {
        return None;
    }
    let mut value: u64 = 0;
    let mut i: usize = start;
    while i < n
        invariant
            start <= i <= n,
            n == bytes@.len(),
            digits == bytes@.skip(start as int),
            digits == unsigned_digits(bytes@),
            all_digit_bytes(digits.take(i - start)),
            value == digits_value(digits.take(i - start)),
            value <= u32::MAX,
        decreases n - i,
    {
        let b = bytes[i];
        assert(b == digits[i - start]);
        if b < 48 || b > 57 {
            assert(!all_digit_bytes(digits));
            return None;
        }
        let ghost next = digits.take(i - start + 1);
        assert(next.drop_last() =~= digits.take(i - start));
        assert(next.last() == b);
        assert(all_digit_bytes(next)) by {
            assert forall|j: int| 0 <= j < next.len() implies is_digit_byte(#[trigger] next[j]) by {
                if j < next.len() - 1 {
                    assert(next[j] == digits.take(i - start)[j]);
                }
            }
        }
        value = value * 10 + (b - 48) as u64;
        assert(value == digits_value(next));
        if value > u32::MAX as u64 {
            proof {
                if all_digit_bytes(digits) {
                    lemma_digits_value_prefix(digits, i - start + 1);
                }
            }
            return None;
        }
        i = i + 1;
    }
    assert(digits.take(i - start) =~= digits);
    Some(value as u32)
}

} // verus!
