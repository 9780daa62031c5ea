//! The operands of the colour commands: which colour the values on the
//! stack name. Showing the colour is left to the host.
use vstd::prelude::*;
use vstd::string::*;
use vstd::utf8::is_ascii_chars;
use crate::fault::{Fault, FaultModel, Reading};
use crate::interp::{read_value, Interpreter};
use crate::machine::{reading_value, underflow, Machine};
use crate::queue::Text;
use crate::theme::Color;

verus! {

/// What the taking of a colour leaves: the state, and the colour or the
/// fault.
pub type Taken = (Machine, Result<Color, FaultModel>);

/// The fault of a value that cannot be read as `reading`.
pub open spec fn unreadable(value: Text, reading: Reading) -> FaultModel {
    FaultModel::BadValue { value, reading }
}

/// A colour that is not bold.
pub open spec fn plain(r: int, g: int, b: int) -> Color {
    Color { r: r as u8, g: g as u8, b: b as u8, bold: false }
}

/// Whether `s` is a colour in six hexadecimal digits.
pub open spec fn is_colour(s: Text) -> bool {
    &&& s.len() == 6
    &&& is_ascii_chars(s)
    &&& reading_value(s.subrange(0, 2), Reading::HexByte) is Some
    &&& reading_value(s.subrange(2, 4), Reading::HexByte) is Some
    &&& reading_value(s.subrange(4, 6), Reading::HexByte) is Some
}

/// The component of colour `s` that starts at character `at`.
pub open spec fn component(s: Text, at: int) -> int {
    reading_value(s.subrange(at, at + 2), Reading::HexByte).unwrap()
}

impl Machine {
    /// Three components are taken off the stack, blue first, each read as
    /// `reading` asks; the first that cannot be read is the fault.
    pub open spec fn taking_rgb(self, op: Text, reading: Reading) -> Taken {
        if self.stack.len() < 3 {
            (self, Err(underflow(op, 3)))
        } else {
            match reading_value(self.below(0), reading) {
                None => (self.popped(1), Err(unreadable(self.below(0), reading))),
                Some(b) => match reading_value(self.below(1), reading) {
                    None => (self.popped(2), Err(unreadable(self.below(1), reading))),
                    Some(g) => match reading_value(self.below(2), reading) {
                        None => (self.popped(3), Err(unreadable(self.below(2), reading))),
                        Some(r) => (self.popped(3), Ok(plain(r, g, b))),
                    },
                },
            }
        }
    }

    /// Two colours of six hexadecimal digits are taken off the stack and
    /// averaged component by component, rounding down; one that is no such
    /// colour is the fault, the lower one first.
    pub open spec fn taking_average(self, op: Text) -> Taken {
        if self.stack.len() < 2 {
            (self, Err(underflow(op, 2)))
        } else {
            let a = self.below(1);
            let b = self.below(0);
            if !is_colour(a) {
                (self.popped(2), Err(FaultModel::BadArgument { command: op, argument: a }))
            } else if !is_colour(b) {
                (self.popped(2), Err(FaultModel::BadArgument { command: op, argument: b }))
            } else {
                (
                    self.popped(2),
                    Ok(
                        plain(
                            (component(a, 0) + component(b, 0)) / 2,
                            (component(a, 2) + component(b, 2)) / 2,
                            (component(a, 4) + component(b, 4)) / 2,
                        ),
                    ),
                )
            }
        }
    }
}

/// A fault or a colour as contracts see it.
pub open spec fn taken_of(r: Result<Color, Fault>) -> Result<Color, FaultModel> {
    match r {
        Ok(c) => Ok(c),
        Err(e) => Err(e@),
    }
}

/// The three components of a colour in six hexadecimal digits.
pub fn components(s: &str) -> (r: Option<(u8, u8, u8)>)
    ensures
        match r {
            Some((r, g, b)) => is_colour(s@) && r == component(s@, 0) && g == component(s@, 2)
                && b == component(s@, 4),
            None => !is_colour(s@),
        },
{
    if !s.is_ascii() {
        return None;
    }
    if s.unicode_len() != 6 {
        return None;
    }
    let r = read_value(s.substring_ascii(0, 2), Reading::HexByte);
    let g = read_value(s.substring_ascii(2, 4), Reading::HexByte);
    let b = read_value(s.substring_ascii(4, 6), Reading::HexByte);
    match (r, g, b) {
        (Some(r), Some(g), Some(b)) => Some((r as u8, g as u8, b as u8)),
        _ => None,
    }
}

impl Interpreter {
    /// Takes the three components of a colour off the stack.
    fn take_rgb(&mut self, op: &str, reading: Reading) -> (r: Result<Color, Fault>)
        requires
            reading == Reading::Byte || reading == Reading::HexByte,
        ensures
            (final(self)@, taken_of(r)) == old(self)@.taking_rgb(op@, reading),
    {
        match self.check_stack_error(3, op) {
            Err(e) => {
                return Err(e);
            },
            Ok(_) => {},
        }
        let b = match self.pop_reading(reading) {
            Err(e) => {
                return Err(e);
            },
            Ok(b) => b,
        };
        let g = match self.pop_reading(reading) {
            Err(e) => {
                assert(self@.stack =~= old(self)@.popped(2).stack);
                return Err(e);
            },
            Ok(g) => g,
        };
        let r = match self.pop_reading(reading) {
            Err(e) => {
                assert(self@.stack =~= old(self)@.popped(3).stack);
                return Err(e);
            },
            Ok(r) => r,
        };
        assert(self@.stack =~= old(self)@.popped(3).stack);
        Ok(Color { r: r as u8, g: g as u8, b: b as u8, bold: false })
    }

    /// `rgb`: takes three decimal components, blue on top, as a colour.
    pub fn c_rgb(&mut self, op: &str) -> (r: Result<Color, Fault>)
        ensures
            (final(self)@, taken_of(r)) == old(self)@.taking_rgb(op@, Reading::Byte),
    {
        self.take_rgb(op, Reading::Byte)
    }

    /// `rgbh`: takes three hexadecimal components, blue on top, as a
    /// colour.
    pub fn c_rgbh(&mut self, op: &str) -> (r: Result<Color, Fault>)
        ensures
            (final(self)@, taken_of(r)) == old(self)@.taking_rgb(op@, Reading::HexByte),
    {
        self.take_rgb(op, Reading::HexByte)
    }

    /// `rgb_avg`: takes two colours of six hexadecimal digits and gives
    /// the colour halfway between them.
    pub fn c_rgb_avg(&mut self, op: &str) -> (r: Result<Color, Fault>)
        ensures
            (final(self)@, taken_of(r)) == old(self)@.taking_average(op@),
    {
        match self.check_stack_error(2, op) {
            Err(e) => {
                return Err(e);
            },
            Ok(_) => {},
        }
        let second = self.pop_stack_string();
        let first = self.pop_stack_string();
        assert(self@.stack =~= old(self)@.popped(2).stack);
        let a = match components(first.as_str()) {
            None => {
                return Err(Fault::BadArgument { command: String::from_str(op), argument: first });
            },
            Some(a) => a,
        };
        let b = match components(second.as_str()) {
            None => {
                return Err(Fault::BadArgument { command: String::from_str(op), argument: second });
            },
            Some(b) => b,
        };
        let r: u16 = (a.0 as u16 + b.0 as u16) / 2;
        let g: u16 = (a.1 as u16 + b.1 as u16) / 2;
        let b: u16 = (a.2 as u16 + b.2 as u16) / 2;
        Ok(Color { r: r as u8, g: g as u8, b: b as u8, bold: false })
    }
}

} // verus!
