//! The commands on integers: arithmetic on unsigned 64-bit numbers, the
//! conversions between decimal, hexadecimal and binary writing, and the two
//! colour conversions.
use vstd::prelude::*;
use vstd::string::*;
use crate::fault::{Fault, Reading};
use crate::interp::{signal_of, Interpreter, Step};
use crate::machine::{
    factorial_of, gcd_of, hex_pair, int_arity, int_result, is_conversion, is_int_command,
    ones_of, Command,
};
use crate::numeral::{
    i64_from_str_radix, i64_to_decimal, pattern_of, u64_to_binary, u64_to_decimal, u64_to_hex,
};

verus! {

/// The factorial never shrinks, and is at least 1.
pub proof fn lemma_factorial_grows(a: nat, b: nat)
    requires
        a <= b,
    ensures
        1 <= factorial_of(a) <= factorial_of(b),
    decreases b,
{
    if b == 0 {
    } else if a == b {
        lemma_factorial_grows((a - 1) as nat, (a - 1) as nat);
        assert(b * factorial_of((b - 1) as nat) >= 1) by (nonlinear_arith)
            requires
                b >= 1,
                factorial_of((b - 1) as nat) >= 1,
        ;
    } else {
        lemma_factorial_grows(a, (b - 1) as nat);
        assert(b * factorial_of((b - 1) as nat) >= factorial_of((b - 1) as nat))
            by (nonlinear_arith)
            requires
                b >= 1,
                factorial_of((b - 1) as nat) >= 1,
        ;
    }
}

/// `n` factorial, where it fits in 64 bits.
pub fn checked_factorial(n: u64) -> (r: Option<u64>)
    ensures
        r == int_result(Command::Factorial, n, 0),
{
    let mut acc: u64 = 1;
    let mut i: u64 = 0;
    while i < n
        invariant
            i <= n,
            acc == factorial_of(i as nat),
        decreases n - i,
    {
        i = i + 1;
        match acc.checked_mul(i) {
            None => {
                proof {
                    assert(factorial_of(i as nat) == i * acc) by (nonlinear_arith)
                        requires
                            factorial_of(i as nat) == i * factorial_of((i - 1) as nat),
                            acc == factorial_of((i - 1) as nat),
                    ;
                    lemma_factorial_grows(i as nat, n as nat);
                }
                return None;
            },
            Some(p) => {
                acc = p;
            },
        }
    }
    Some(acc)
}

/// The greatest common divisor of `a` and `b`.
pub fn gcd(a: u64, b: u64) -> (r: u64)
    ensures
        r == gcd_of(a as nat, b as nat),
{
    let mut x: u64 = a;
    let mut y: u64 = b;
    while y != 0
        invariant
            gcd_of(x as nat, y as nat) == gcd_of(a as nat, b as nat),
        decreases y,
    {
        let next: u64 = x % y;
        x = y;
        y = next;
    }
    x
}

/// A number has no more ones than it counts.
pub proof fn lemma_ones_bound(n: nat)
    ensures
        ones_of(n) <= n,
    decreases n,
{
    if n > 0 {
        lemma_ones_bound(n / 2);
    }
}

/// The number of ones in the binary writing of `n`.
pub fn count_ones(n: u64) -> (r: u64)
    ensures
        r == ones_of(n as nat),
{
    let mut left: u64 = n;
    let mut count: u64 = 0;
    proof {
        lemma_ones_bound(n as nat);
    }
    while left != 0
        invariant
            count + ones_of(left as nat) == ones_of(n as nat),
            ones_of(n as nat) <= n,
        decreases left,
    {
        count = count + left % 2;
        left = left / 2;
    }
    count
}

/// The result of integer command `c` on `a` and `b`.
pub fn int_apply(c: Command, a: u64, b: u64) -> (r: Option<u64>)
    requires
        is_int_command(c),
    ensures
        r == int_result(c, a, b),
{
    match c {
        Command::Factorial => checked_factorial(a),
        Command::Gcd => Some(gcd(a, b)),
        Command::Triangle => match a.checked_add(1) {
            None => {
                assert(a * (a + 1) > u64::MAX) by (nonlinear_arith)
                    requires
                        a == u64::MAX,
                ;
                None
            },
            Some(next) => match a.checked_mul(next) {
                None => None,
                Some(p) => Some(p / 2),
            },
        },
        Command::Not => Some(!a),
        Command::And => Some(a & b),
        Command::Nand => Some(!(a & b)),
        Command::Or => Some(a | b),
        Command::Nor => Some(!(a | b)),
        Command::Xor => Some(a ^ b),
        _ => Some(count_ones(a)),
    }
}

/// Whether an integer command takes two operands.
pub fn takes_two(c: Command) -> (r: bool)
    ensures
        r == (int_arity(c) == 2),
{
    match c {
        Command::Gcd
        | Command::And
        | Command::Nand
        | Command::Or
        | Command::Nor
        | Command::Xor => true,
        _ => false,
    }
}

/// `n` in hexadecimal, in at least two digits.
pub fn hex_pair_of(n: u64) -> (r: String)
    ensures
        r@ == hex_pair(n as nat),
{
    let digits = u64_to_hex(n);
    if n < 16 {
        let r = String::from_str("0").concat(digits.as_str());
        proof {
            reveal_strlit("0");
        }
        r
    } else {
        digits
    }
}

impl Interpreter {
    /// `n` factorial.
    pub fn factorial(n: u64) -> (r: u64)
        requires
            factorial_of(n as nat) <= u64::MAX,
        ensures
            r == factorial_of(n as nat),
    {
        checked_factorial(n).unwrap()
    }

    /// The greatest common divisor of `a` and `b`.
    pub fn gcd(a: u64, b: u64) -> (r: u64)
        ensures
            r == gcd_of(a as nat, b as nat),
    {
        self::gcd(a, b)
    }

    /// An integer command: takes its operands off the stack, the last
    /// first, and pushes the result in decimal.
    pub fn cmdgen_u64(&mut self, c: Command, op: &str) -> (r: Result<Step, Fault>)
        requires
            is_int_command(c),
        ensures
            (final(self)@, signal_of(r)) == old(self)@.after_int(c, op@),
    {
        let two = takes_two(c);
        let needed: usize = if two {
            2
        } else {
            1
        };
        match self.check_stack_error(needed, op) {
            Err(e) => {
                return Err(e);
            },
            Ok(_) => {},
        }
        let b: u64 = if two {
            match self.pop_stack_u64() {
                Err(e) => {
                    return Err(e);
                },
                Ok(b) => b,
            }
        } else {
            0
        };
        let a: u64 = match self.pop_stack_u64() {
            Err(e) => {
                assert(self@.stack =~= old(self)@.popped(needed as int).stack);
                return Err(e);
            },
            Ok(a) => a,
        };
        assert(self@.stack =~= old(self)@.popped(needed as int).stack);
        match int_apply(c, a, b) {
            None => Err(Fault::Overflow { command: String::from_str(op) }),
            Some(v) => {
                self.push(u64_to_decimal(v));
                Ok(Step::Next)
            },
        }
    }

    /// A conversion: takes the top value off the stack in one writing and
    /// pushes it in another.
    pub fn convert(&mut self, c: Command, op: &str) -> (r: Result<Step, Fault>)
        requires
            is_conversion(c),
        ensures
            (final(self)@, signal_of(r)) == old(self)@.after_conversion(c, op@),
    {
        match self.check_stack_error(1, op) {
            Err(e) => {
                return Err(e);
            },
            Ok(_) => {},
        }
        let reading = match c {
            Command::HexDec | Command::HexBin => Reading::Hex,
            Command::BinDec | Command::BinHex => Reading::Binary,
            _ => Reading::Unsigned,
        };
        match self.pop_reading(reading) {
            Err(e) => Err(e),
            Ok(v) => {
                let text = match c {
                    Command::DecHex => u64_to_hex(v as u64),
                    Command::DecBin => u64_to_binary(v as u64),
                    Command::BinHex => u64_to_hex(pattern_of(v as i64)),
                    Command::HexBin => u64_to_binary(pattern_of(v as i64)),
                    _ => i64_to_decimal(v as i64),
                };
                self.push(text);
                Ok(Step::Next)
            },
        }
    }

    /// `hex_rgb`: takes a colour `rrggbb` and pushes its three components
    /// in decimal.
    pub fn c_hexrgb(&mut self, op: &str) -> (r: Result<Step, Fault>)
        ensures
            (final(self)@, signal_of(r)) == old(self)@.after_hexrgb(op@),
    {
        match self.check_stack_error(1, op) {
            Err(e) => {
                return Err(e);
            },
            Ok(_) => {},
        }
        let colour = self.pop_stack_string();
        let s = colour.as_str();
        if !s.is_ascii() {
            return Err(Fault::BadArgument { command: String::from_str(op), argument: colour });
        }
        let len = s.unicode_len();
        if len < 5 {
            return Err(Fault::BadArgument { command: String::from_str(op), argument: colour });
        }
        let red = i64_from_str_radix(s.substring_ascii(0, 2), 16);
        let green = i64_from_str_radix(s.substring_ascii(2, 4), 16);
        let blue = i64_from_str_radix(s.substring_ascii(4, len), 16);
        match (red, green, blue) {
            (Some(r), Some(g), Some(b)) => {
                self.push(i64_to_decimal(r));
                self.push(i64_to_decimal(g));
                self.push(i64_to_decimal(b));
                Ok(Step::Next)
            },
            _ => Err(Fault::BadValue { value: colour, reading: Reading::Hex }),
        }
    }

    /// `rgb_hex`: takes three components, blue on top, and pushes the
    /// colour `rrggbb`.
    pub fn c_rgbhex(&mut self, op: &str) -> (r: Result<Step, Fault>)
        ensures
            (final(self)@, signal_of(r)) == old(self)@.after_rgbhex(op@),
    {
        match self.check_stack_error(3, op) {
            Err(e) => {
                return Err(e);
            },
            Ok(_) => {},
        }
        let b: u64 = match self.pop_stack_u64() {
            Err(e) => {
                return Err(e);
            },
            Ok(b) => b,
        };
        let g: u64 = match self.pop_stack_u64() {
            Err(e) => {
                assert(self@.stack =~= old(self)@.popped(2).stack);
                return Err(e);
            },
            Ok(g) => g,
        };
        let r: u64 = match self.pop_stack_u64() {
            Err(e) => {
                assert(self@.stack =~= old(self)@.popped(3).stack);
                return Err(e);
            },
            Ok(r) => r,
        };
        assert(self@.stack =~= old(self)@.popped(3).stack);
        let green = hex_pair_of(g);
        let blue = hex_pair_of(b);
        let colour = hex_pair_of(r).concat(green.as_str()).concat(blue.as_str());
        self.push(colour);
        Ok(Step::Next)
    }

    /// `!`: the factorial of the top value.
    pub fn c_fact(&mut self, op: &str) -> (r: Result<Step, Fault>)
        ensures
            (final(self)@, signal_of(r)) == old(self)@.after_int(Command::Factorial, op@),
    {
        self.cmdgen_u64(Command::Factorial, op)
    }

    /// `gcd`: the greatest common divisor of the two top values.
    pub fn c_gcd(&mut self, op: &str) -> (r: Result<Step, Fault>)
        ensures
            (final(self)@, signal_of(r)) == old(self)@.after_int(Command::Gcd, op@),
    {
        self.cmdgen_u64(Command::Gcd, op)
    }

    /// `tng`: the sum of 1 to the top value.
    pub fn c_triangle(&mut self, op: &str) -> (r: Result<Step, Fault>)
        ensures
            (final(self)@, signal_of(r)) == old(self)@.after_int(Command::Triangle, op@),
    {
        self.cmdgen_u64(Command::Triangle, op)
    }

    /// `not`: the bitwise complement of the top value.
    pub fn c_not(&mut self, op: &str) -> (r: Result<Step, Fault>)
        ensures
            (final(self)@, signal_of(r)) == old(self)@.after_int(Command::Not, op@),
    {
        self.cmdgen_u64(Command::Not, op)
    }

    /// `and`: the bitwise and of the two top values.
    pub fn c_and(&mut self, op: &str) -> (r: Result<Step, Fault>)
        ensures
            (final(self)@, signal_of(r)) == old(self)@.after_int(Command::And, op@),
    {
        self.cmdgen_u64(Command::And, op)
    }

    /// `nand`: the complement of the bitwise and of the two top values.
    pub fn c_nand(&mut self, op: &str) -> (r: Result<Step, Fault>)
        ensures
            (final(self)@, signal_of(r)) == old(self)@.after_int(Command::Nand, op@),
    {
        self.cmdgen_u64(Command::Nand, op)
    }

    /// `or`: the bitwise or of the two top values.
    pub fn c_or(&mut self, op: &str) -> (r: Result<Step, Fault>)
        ensures
            (final(self)@, signal_of(r)) == old(self)@.after_int(Command::Or, op@),
    {
        self.cmdgen_u64(Command::Or, op)
    }

    /// `nor`: the complement of the bitwise or of the two top values.
    pub fn c_nor(&mut self, op: &str) -> (r: Result<Step, Fault>)
        ensures
            (final(self)@, signal_of(r)) == old(self)@.after_int(Command::Nor, op@),
    {
        self.cmdgen_u64(Command::Nor, op)
    }

    /// `xor`: the bitwise exclusive or of the two top values.
    pub fn c_xor(&mut self, op: &str) -> (r: Result<Step, Fault>)
        ensures
            (final(self)@, signal_of(r)) == old(self)@.after_int(Command::Xor, op@),
    {
        self.cmdgen_u64(Command::Xor, op)
    }

    /// `ones`: the number of bits that are set in the top value.
    pub fn c_ones(&mut self, op: &str) -> (r: Result<Step, Fault>)
        ensures
            (final(self)@, signal_of(r)) == old(self)@.after_int(Command::Ones, op@),
    {
        self.cmdgen_u64(Command::Ones, op)
    }

    /// `dec_hex`: the top value from decimal to hexadecimal.
    pub fn c_dechex(&mut self, op: &str) -> (r: Result<Step, Fault>)
        ensures
            (final(self)@, signal_of(r)) == old(self)@.after_conversion(Command::DecHex, op@),
    {
        self.convert(Command::DecHex, op)
    }

    /// `hex_dec`: the top value from hexadecimal to decimal.
    pub fn c_hexdec(&mut self, op: &str) -> (r: Result<Step, Fault>)
        ensures
            (final(self)@, signal_of(r)) == old(self)@.after_conversion(Command::HexDec, op@),
    {
        self.convert(Command::HexDec, op)
    }

    /// `dec_bin`: the top value from decimal to binary.
    pub fn c_decbin(&mut self, op: &str) -> (r: Result<Step, Fault>)
        ensures
            (final(self)@, signal_of(r)) == old(self)@.after_conversion(Command::DecBin, op@),
    {
        self.convert(Command::DecBin, op)
    }

    /// `bin_dec`: the top value from binary to decimal.
    pub fn c_bindec(&mut self, op: &str) -> (r: Result<Step, Fault>)
        ensures
            (final(self)@, signal_of(r)) == old(self)@.after_conversion(Command::BinDec, op@),
    {
        self.convert(Command::BinDec, op)
    }

    /// `bin_hex`: the top value from binary to hexadecimal.
    pub fn c_binhex(&mut self, op: &str) -> (r: Result<Step, Fault>)
        ensures
            (final(self)@, signal_of(r)) == old(self)@.after_conversion(Command::BinHex, op@),
    {
        self.convert(Command::BinHex, op)
    }

    /// `hex_bin`: the top value from hexadecimal to binary.
    pub fn c_hexbin(&mut self, op: &str) -> (r: Result<Step, Fault>)
        ensures
            (final(self)@, signal_of(r)) == old(self)@.after_conversion(Command::HexBin, op@),
    {
        self.convert(Command::HexBin, op)
    }
}

} // verus!
