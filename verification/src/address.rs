//! Address literals: decimal digits, or hexadecimal digits behind `0x`.

use vstd::prelude::*;
use vstd::string::*;

use crate::error::Error;

verus! {

/// The value of `c` as a digit, for the sixteen hexadecimal digits in either case.
pub open spec fn digit_value(c: char) -> Option<nat> {
    if '0' <= c <= '9' {
        Some((c as nat - '0' as nat) as nat)
    } else if 'a' <= c <= 'f' {
        Some((c as nat - 'a' as nat + 10) as nat)
    } else if 'A' <= c <= 'F' {
        Some((c as nat - 'A' as nat + 10) as nat)
    } else {
        None
    }
}

/// Whether `c` is a digit of base `radix`.
pub open spec fn is_digit(c: char, radix: nat) -> bool {
    digit_value(c) matches Some(d) && d < radix
}

/// Whether every character of `s` is a digit of base `radix`.
pub open spec fn all_digits(s: Seq<char>, radix: nat) -> bool {
    forall|i: int| 0 <= i < s.len() ==> is_digit(#[trigger] s[i], radix)
}

/// The number that the digits `s` denote in base `radix`, most significant digit first.
pub open spec fn digits_value(s: Seq<char>, radix: nat) -> nat
    recommends
        all_digits(s, radix),
    decreases s.len(),
{
    if s.len() == 0 {
        0
    } else {
        let low = match digit_value(s.last()) {
            Some(d) => d,
            None => 0,
        };
        digits_value(s.drop_last(), radix) * radix + low
    }
}

/// Whether `s` starts with the two characters `0x`.
pub open spec fn has_hex_prefix(s: Seq<char>) -> bool {
    s.len() >= 2 && s[0] == '0' && s[1] == 'x'
}

/// The base in which the digits of the literal `s` are read.
pub open spec fn literal_radix(s: Seq<char>) -> nat {
    if has_hex_prefix(s) {
        16
    } else {
        10
    }
}

/// The digits of the literal `s`: what follows the prefix `0x`, or all of `s`.
pub open spec fn literal_digits(s: Seq<char>) -> Seq<char> {
    if has_hex_prefix(s) {
        s.skip(2)
    } else {
        s
    }
}

/// Whether `s` is an address literal: at least one digit, and digits only.
pub open spec fn is_literal(s: Seq<char>) -> bool {
    literal_digits(s).len() > 0 && all_digits(literal_digits(s), literal_radix(s))
}

/// The address that the literal `s` denotes, if it is one and fits in 64 bits.
pub open spec fn address_of(s: Seq<char>) -> Option<u64> {
    let value = digits_value(literal_digits(s), literal_radix(s));
    if is_literal(s) && value <= u64::MAX {
        Some(value as u64)
    } else {
        None
    }
}

/// The digit of value `d`, the letters in upper case if `upper`.
pub open spec fn digit_char(d: nat, upper: bool) -> char
    recommends
        d < 16,
{
    if d < 10 {
        ('0' as nat + d) as char
    } else if upper {
        ('A' as nat + d - 10) as char
    } else {
        ('a' as nat + d - 10) as char
    }
}

/// The digits of `n` in base `radix`, without leading zeros.
pub open spec fn digits_of(n: nat, radix: nat, upper: bool) -> Seq<char>
    recommends
        2 <= radix <= 16,
    decreases n,
    via digits_of_terminates
{
    if radix < 2 || n < radix {
        seq![digit_char(n, upper)]
    } else {
        digits_of(n / radix, radix, upper).push(digit_char(n % radix, upper))
    }
}

#[via_fn]
proof fn digits_of_terminates(n: nat, radix: nat, upper: bool) {
    if radix >= 2 && n >= radix {
        assert(n / radix < n) by (nonlinear_arith)
            requires
                radix >= 2,
                n >= radix,
        ;
    }
}

/// `n` written in decimal.
pub open spec fn decimal_text(n: nat) -> Seq<char> {
    digits_of(n, 10, false)
}

/// `n` written in hexadecimal behind the prefix `0x`.
pub open spec fn hex_text(n: nat, upper: bool) -> Seq<char> {
    seq!['0', 'x'] + digits_of(n, 16, upper)
}

/// A prefix of a digit string denotes no more than the whole string.
proof fn lemma_prefix_value(s: Seq<char>, radix: nat, k: int)
    requires
        0 <= k <= s.len(),
        radix >= 1,
    ensures
        digits_value(s.take(k), radix) <= digits_value(s, radix),
    decreases s.len(),
{
    if k < s.len() {
        let front = s.drop_last();
        lemma_prefix_value(front, radix, k);
        assert(front.take(k) =~= s.take(k));
        assert(digits_value(front, radix) <= digits_value(front, radix) * radix)
            by (nonlinear_arith)
            requires
                radix >= 1,
        ;
    } else {
        assert(s.take(k) =~= s);
    }
}

/// Appending one digit multiplies by the base and adds the digit.
proof fn lemma_value_push(s: Seq<char>, c: char, radix: nat)
    requires
        is_digit(c, radix),
    ensures
        digits_value(s.push(c), radix) == digits_value(s, radix) * radix + digit_value(c)->0,
{
    assert(s.push(c).drop_last() =~= s);
}

/// The digit of a byte in base `radix`, if it is one.
fn digit_of_byte(b: u8, radix: u64) -> (d: Option<u64>)
    ensures
        d is Some <==> is_digit(b as char, radix as nat),
        d matches Some(v) ==> digit_value(b as char) == Some(v as nat),
{
    let value: u64 = if 0x30 <= b && b <= 0x39 {
        (b - 0x30) as u64
    } else if 0x61 <= b && b <= 0x66 {
        (b - 0x61) as u64 + 10
    } else if 0x41 <= b && b <= 0x46 {
        (b - 0x41) as u64 + 10
    } else {
        return None;
    };
    if value < radix {
        Some(value)
    } else {
        None
    }
}

/// Parses an address literal: hexadecimal digits behind `0x`, decimal digits otherwise.
///
/// Fails with [`Error::Parse`] unless the text is a literal whose value fits in 64 bits.
pub fn parse_address(text: &str) -> (r: Result<u64, Error>)
    ensures
        r == match address_of(text@) {
            Some(value) => Ok::<u64, Error>(value),
            None => Err(Error::Parse),
        },
{
    broadcast use is_ascii_spec_bytes;

    if !text.is_ascii() {
        proof {
            lemma_non_ascii_is_no_literal(text@);
        }
        return Err(Error::Parse);
    }
    let bytes = text.as_bytes();
    let n = bytes.len();
    let hex = n >= 2 && bytes[0] == 0x30 && bytes[1] == 0x78;
    let start: usize = if hex { 2 } else { 0 };
    let radix: u64 = if hex { 16 } else { 10 };
    let ghost digits = literal_digits(text@);
    assert(hex == has_hex_prefix(text@));
    assert(digits =~= text@.subrange(start as int, n as int));
    if start == n {
        return Err(Error::Parse);
    }
    let mut value: u64 = 0;
    let mut i: usize = start;
    assert(digits.take(0) =~= Seq::<char>::empty());
    while i < n
        invariant
            text.is_ascii(),
            bytes@ == text.spec_bytes(),
            n == text@.len(),
            start <= i <= n,
            radix == literal_radix(text@),
            digits == literal_digits(text@),
            digits =~= text@.subrange(start as int, n as int),
            all_digits(digits.take(i - start), radix as nat),
            value == digits_value(digits.take(i - start), radix as nat),
        decreases n - i,
    {
        let b = bytes[i];
        let ghost c = text@[i as int];
        let ghost seen = digits.take(i - start);
        assert(c == b as char);
        assert(digits.take(i - start + 1) =~= seen.push(c));
        match digit_of_byte(b, radix) {
            None => {
                assert(!is_digit(digits[i - start], radix as nat));
                return Err(Error::Parse);
            },
            Some(d) => {
                proof {
                    lemma_value_push(seen, c, radix as nat);
                    lemma_prefix_value(digits, radix as nat, i - start + 1);
                }
                let shifted = match value.checked_mul(radix) {
                    Some(shifted) => shifted,
                    None => {
                        return Err(Error::Parse);
                    },
                };
                value = match shifted.checked_add(d) {
                    Some(sum) => sum,
                    None => {
                        return Err(Error::Parse);
                    },
                };
            },
        }
        i += 1;
    }
    assert(digits.take(n - start) =~= digits);
    Ok(value)
}

/// A text with a character outside ASCII is no address literal.
proof fn lemma_non_ascii_is_no_literal(s: Seq<char>)
    requires
        !vstd::utf8::is_ascii_chars(s),
    ensures
        !is_literal(s),
{
    let i = choose|i: int| 0 <= i < s.len() && !('\0' <= #[trigger] s[i] <= '\u{7f}');
    assert(digit_value(s[i]) is None);
    if has_hex_prefix(s) {
        assert(i >= 2);
        assert(s.skip(2)[i - 2] == s[i]);
    }
}

/// Every digit character denotes the value it was made from.
proof fn lemma_digit_char(d: nat, upper: bool)
    requires
        d < 16,
    ensures
        digit_value(digit_char(d, upper)) == Some(d),
{
}

/// The digits of `n` are digits of the base, at least one, and denote `n`.
proof fn lemma_digits_of(n: nat, radix: nat, upper: bool)
    requires
        2 <= radix <= 16,
    ensures
        digits_of(n, radix, upper).len() > 0,
        all_digits(digits_of(n, radix, upper), radix),
        digits_value(digits_of(n, radix, upper), radix) == n,
    decreases n,
{
    if n < radix {
        let digit = digit_char(n, upper);
        lemma_digit_char(n, upper);
        lemma_value_push(Seq::empty(), digit, radix);
        assert(digits_of(n, radix, upper) =~= Seq::<char>::empty().push(digit));
        assert(0 * radix == 0) by (nonlinear_arith);
    } else {
        let high = n / radix;
        let low = n % radix;
        assert(high < n && low < radix && high * radix + low == n) by (nonlinear_arith)
            requires
                radix >= 2,
                n >= radix,
                high == n / radix,
                low == n % radix,
        ;
        lemma_digits_of(high, radix, upper);
        lemma_digit_char(low, upper);
        lemma_value_push(digits_of(high, radix, upper), digit_char(low, upper), radix);
    }
}

/// Parsing the decimal text of an address that fits in 64 bits yields that address.
pub proof fn lemma_decimal_round_trip(n: nat)
    requires
        n <= u64::MAX,
    ensures
        address_of(decimal_text(n)) == Some(n as u64),
{
    let text = decimal_text(n);
    lemma_digits_of(n, 10, false);
    if text.len() >= 2 {
        assert(is_digit(text[1], 10));
    }
}

/// Parsing the hexadecimal text of an address that fits in 64 bits, in either
/// case of the letters, yields that address.
pub proof fn lemma_hex_round_trip(n: nat, upper: bool)
    requires
        n <= u64::MAX,
    ensures
        address_of(hex_text(n, upper)) == Some(n as u64),
{
    let text = hex_text(n, upper);
    lemma_digits_of(n, 16, upper);
    assert(has_hex_prefix(text));
    assert(text.skip(2) =~= digits_of(n, 16, upper));
}

/// The text of a number that does not fit in 64 bits denotes no address.
pub proof fn lemma_overflow_is_rejected(n: nat, upper: bool)
    requires
        n > u64::MAX,
    ensures
        address_of(decimal_text(n)) is None,
        address_of(hex_text(n, upper)) is None,
{
    let decimal = decimal_text(n);
    lemma_digits_of(n, 10, false);
    if decimal.len() >= 2 {
        assert(is_digit(decimal[1], 10));
    }
    let hex = hex_text(n, upper);
    lemma_digits_of(n, 16, upper);
    assert(has_hex_prefix(hex));
    assert(hex.skip(2) =~= digits_of(n, 16, upper));
}

/// A text that is neither a run of decimal digits nor `0x` before a run of
/// hexadecimal digits denotes no address.
pub proof fn lemma_malformed_is_rejected(s: Seq<char>)
    requires
        !(s.len() > 0 && all_digits(s, 10)),
        !(has_hex_prefix(s) && s.len() > 2 && all_digits(s.skip(2), 16)),
    ensures
        address_of(s) is None,
{
}

} // verus!
