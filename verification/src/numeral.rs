//! Numbers as tokens spell them: how a spelling is read as an integer in a
//! given radix, and how an integer is written out.
use vstd::prelude::*;
use vstd::string::*;

verus! {

/// The value of `c` as a digit: 0 to 9 for `0` to `9`, 10 to 35 for the
/// letters of either case, and 36 for any other character.
pub open spec fn digit_of(c: char) -> int {
    let code = c as int;
    if 48 <= code <= 57 {
        code - 48
    } else if 97 <= code <= 122 {
        code - 87
    } else if 65 <= code <= 90 {
        code - 55
    } else {
        36
    }
}

/// The number that the digits `s` spell in `radix`, most significant digit
/// first; `None` where a character is no digit of that radix.
pub open spec fn digits_value(s: Seq<char>, radix: int) -> Option<int>
    decreases s.len(),
{
    if s.len() == 0 {
        Some(0)
    } else {
        match digits_value(s.drop_last(), radix) {
            Some(high) => if digit_of(s.last()) < radix {
                Some(high * radix + digit_of(s.last()))
            } else {
                None
            },
            None => None,
        }
    }
}

/// The number that `s` spells where no minus sign is accepted: an optional
/// `+`, then at least one digit, and nothing else.
pub open spec fn unsigned_reading(s: Seq<char>, radix: int) -> Option<int> {
    let body = if s.len() > 0 && s[0] == '+' {
        s.skip(1)
    } else {
        s
    };
    if body.len() == 0 {
        None
    } else {
        digits_value(body, radix)
    }
}

/// The number that `s` spells where a sign is accepted: an optional `+` or
/// `-`, then at least one digit, and nothing else.
pub open spec fn signed_reading(s: Seq<char>, radix: int) -> Option<int> {
    if s.len() > 0 && s[0] == '-' {
        if s.len() == 1 {
            None
        } else {
            match digits_value(s.skip(1), radix) {
                Some(v) => Some(-v),
                None => None,
            }
        }
    } else {
        unsigned_reading(s, radix)
    }
}

/// `v`, where it lies from `low` to `high`.
pub open spec fn within(v: Option<int>, low: int, high: int) -> Option<int> {
    match v {
        Some(x) => if low <= x <= high {
            v
        } else {
            None
        },
        None => None,
    }
}

/// The character that writes the digit `d`, for `d` below 16.
pub open spec fn digit_char(d: int) -> char {
    seq!['0', '1', '2', '3', '4', '5', '6', '7', '8', '9', 'a', 'b', 'c', 'd', 'e', 'f'][d]
}

/// `n` written in `radix` (from 2 to 16), most significant digit first and
/// without leading zeros.
pub open spec fn digits(n: nat, radix: nat) -> Seq<char>
    decreases n,
    via digits_shorten
{
    if radix < 2 || n < radix {
        seq![digit_char(n as int)]
    } else {
        digits(n / radix, radix).push(digit_char((n % radix) as int))
    }
}

#[via_fn]
proof fn digits_shorten(n: nat, radix: nat) {
    if radix >= 2 && n >= radix {
        assert(n / radix < n) by (nonlinear_arith)
            requires
                radix >= 2,
                n >= radix,
        ;
    }
}

/// `v` written in decimal, with a leading `-` where it is negative.
pub open spec fn decimal(v: int) -> Seq<char> {
    if v < 0 {
        seq!['-'] + digits((-v) as nat, 10)
    } else {
        digits(v as nat, 10)
    }
}

/// The 64-bit pattern of `v` read as an unsigned number (two's complement).
pub open spec fn bit_pattern(v: int) -> nat {
    if v < 0 {
        (v + 0x1_0000_0000_0000_0000) as nat
    } else {
        v as nat
    }
}

/// Calls `u64::from_str_radix`. The contract restates its documentation:
/// the string is an optional `+` followed by digits of the radix only, and
/// the number must fit in 64 bits; anything else is an error, given here as
/// `None`.
#[verifier::external_body]
pub(crate) fn u64_from_str_radix(s: &str, radix: u32) -> (r: Option<u64>)
    requires
        2 <= radix <= 36,
    ensures
        match within(unsigned_reading(s@, radix as int), 0, u64::MAX as int) {
            Some(v) => r == Some(v as u64),
            None => r is None,
        },
{
    match u64::from_str_radix(s, radix) {
        Ok(v) => Some(v),
        Err(_) => None,
    }
}

/// Calls `i64::from_str_radix`. The contract restates its documentation:
/// the string is an optional `+` or `-` followed by digits of the radix
/// only, and the number must fit in a signed 64-bit integer; anything else
/// is an error, given here as `None`.
#[verifier::external_body]
pub(crate) fn i64_from_str_radix(s: &str, radix: u32) -> (r: Option<i64>)
    requires
        2 <= radix <= 36,
    ensures
        match within(signed_reading(s@, radix as int), i64::MIN as int, i64::MAX as int) {
            Some(v) => r == Some(v as i64),
            None => r is None,
        },
{
    match i64::from_str_radix(s, radix) {
        Ok(v) => Some(v),
        Err(_) => None,
    }
}

/// Calls `u64::to_string`, which writes the number in decimal without
/// leading zeros.
#[verifier::external_body]
pub(crate) fn u64_to_decimal(n: u64) -> (r: String)
    ensures
        r@ == digits(n as nat, 10),
{
    n.to_string()
}

/// Formats with `{:x}`: the number in hexadecimal, lower case, without
/// prefix or leading zeros.
#[verifier::external_body]
pub(crate) fn u64_to_hex(n: u64) -> (r: String)
    ensures
        r@ == digits(n as nat, 16),
{
    format!("{:x}", n)
}

/// Formats with `{:b}`: the number in binary, without prefix or leading
/// zeros.
#[verifier::external_body]
pub(crate) fn u64_to_binary(n: u64) -> (r: String)
    ensures
        r@ == digits(n as nat, 2),
{
    format!("{:b}", n)
}

/// Reads a decimal number without minus sign.
pub fn parse_u64(s: &str) -> (r: Option<u64>)
    ensures
        match within(unsigned_reading(s@, 10), 0, u64::MAX as int) {
            Some(v) => r == Some(v as u64),
            None => r is None,
        },
{
    u64_from_str_radix(s, 10)
}

/// Reads a decimal number with an optional sign.
pub fn parse_i64(s: &str) -> (r: Option<i64>)
    ensures
        match within(signed_reading(s@, 10), i64::MIN as int, i64::MAX as int) {
            Some(v) => r == Some(v as i64),
            None => r is None,
        },
{
    i64_from_str_radix(s, 10)
}

/// Reads a decimal number from 0 to 255.
pub fn parse_u8(s: &str) -> (r: Option<u8>)
    ensures
        match within(unsigned_reading(s@, 10), 0, 255) {
            Some(v) => r == Some(v as u8),
            None => r is None,
        },
{
    match u64_from_str_radix(s, 10) {
        Some(v) => if v <= 255 {
            Some(v as u8)
        } else {
            None
        },
        None => None,
    }
}

/// Reads a decimal number that can count the values of a stack.
pub fn parse_usize(s: &str) -> (r: Option<usize>)
    ensures
        match within(unsigned_reading(s@, 10), 0, usize::MAX as int) {
            Some(v) => r == Some(v as usize),
            None => r is None,
        },
{
    match u64_from_str_radix(s, 10) {
        Some(v) => if v <= usize::MAX as u64 {
            Some(v as usize)
        } else {
            None
        },
        None => None,
    }
}

/// The 64-bit pattern of `v` as an unsigned number.
pub fn pattern_of(v: i64) -> (r: u64)
    ensures
        r as nat == bit_pattern(v as int),
{
    if v >= 0 {
        v as u64
    } else {
        let below: u64 = (-(v + 1)) as u64;
        u64::MAX - below
    }
}

/// Writes a signed number in decimal.
pub fn i64_to_decimal(v: i64) -> (r: String)
    ensures
        r@ == decimal(v as int),
{
    if v >= 0 {
        u64_to_decimal(v as u64)
    } else {
        let magnitude: u64 = (-(v + 1)) as u64 + 1;
        let digits = u64_to_decimal(magnitude);
        let r = String::from_str("-").concat(digits.as_str());
        proof {
            reveal_strlit("-");
        }
        r
    }
}

/// The character that writes a digit reads as that digit.
pub proof fn lemma_digit_reads_back(d: int)
    requires
        0 <= d < 16,
    ensures
        digit_of(digit_char(d)) == d,
{
}

/// What is written is read back: the digits of `n` in a radix from 2 to 16
/// are digits of that radix, at least one, and spell `n`.
pub proof fn law_digits_read_back(n: nat, radix: nat)
    requires
        2 <= radix <= 16,
    ensures
        digits(n, radix).len() >= 1,
        forall|i: int|
            0 <= i < digits(n, radix).len() ==> 0 <= digit_of(#[trigger] digits(n, radix)[i])
                < radix,
        digits_value(digits(n, radix), radix as int) == Some(n as int),
        unsigned_reading(digits(n, radix), radix as int) == Some(n as int),
        signed_reading(digits(n, radix), radix as int) == Some(n as int),
    decreases n,
{
    let s = digits(n, radix);
    if n < radix {
        lemma_digit_reads_back(n as int);
        assert(digits_value(s.drop_last(), radix as int) == Some(0int));
        assert(0 * radix + n == n) by (nonlinear_arith);
    } else {
        let high = n / radix;
        let low = n % radix;
        assert(high < n) by (nonlinear_arith)
            requires
                high == n / radix,
                radix >= 2,
                n >= radix,
        ;
        law_digits_read_back(high, radix);
        lemma_digit_reads_back(low as int);
        assert(s.drop_last() =~= digits(high, radix));
        assert(high * radix + low == n) by (nonlinear_arith)
            requires
                high == n / radix,
                low == n % radix,
                radix >= 2,
        ;
        assert forall|i: int| 0 <= i < s.len() implies 0 <= digit_of(#[trigger] s[i]) < radix by {
        }
    }
}

/// What is written in decimal is read back, whatever the sign.
pub proof fn law_decimal_reads_back(v: int)
    ensures
        signed_reading(decimal(v), 10) == Some(v),
{
    if v < 0 {
        law_digits_read_back((-v) as nat, 10);
        let s = decimal(v);
        assert(s.skip(1) =~= digits((-v) as nat, 10));
    } else {
        law_digits_read_back(v as nat, 10);
    }
}

} // verus!
