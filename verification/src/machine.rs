//! The interpreter as mathematics: its state, what each native command makes
//! of a state, how one token is dispatched, and what a run of many steps
//! arrives at. The executable interpreter is proved against these functions.
use vstd::prelude::*;
use vstd::utf8::is_ascii_chars;
use crate::control::{
    branch, comment_skip, fold_tokens, function_capture, lambda_capture, map_tokens, scan_tokens,
};
use crate::fault::{Construct, FaultModel, Reading, WarningModel};
use crate::function::{find_function, lambda_name, without, FunctionModel};
use crate::numeral::{bit_pattern, decimal, digits, signed_reading, unsigned_reading, within};
use crate::queue::Text;

verus! {

/// One of the three memory slots that have commands of their own.
#[derive(Clone, Copy, Debug, PartialEq, Eq, Structural)]
pub enum Slot {
    A,
    B,
    C,
}

/// A native command: what an entry of the command table stands for.
#[derive(Clone, Copy, Debug, PartialEq, Eq, Structural)]
pub enum Command {
    /// Empties the stack.
    Cls,
    /// Removes the top value.
    Drop,
    /// Takes a count and removes the top value.
    Dropn,
    /// Pushes a copy of the top value.
    Dup,
    /// Takes a count `n` and pushes 1 to `n`.
    Iota,
    /// Reverses the stack.
    Rev,
    /// Moves the top value to the bottom.
    Roll,
    /// Takes a count `n` and moves the top `n` values to the bottom.
    Rolln,
    /// Moves the bottom value to the top.
    Rot,
    /// Takes a count `n` and moves the bottom `n` values to the top.
    Rotn,
    /// Exchanges the two top values.
    Swap,
    /// Keeps the top value only.
    Take,
    /// Takes a count `n` and keeps the top `n` values only.
    Taken,
    /// Takes a key and a value and stores the value in memory.
    Store,
    /// Takes a value and stores it in a memory slot.
    Save { slot: Slot },
    /// Pushes the value of a memory slot.
    Recall { slot: Slot },
    /// Defines a named function, up to `)`.
    Function,
    /// Defines the anonymous function, up to `]`.
    Lambda,
    /// Takes two values for the host to compare, before a conditional.
    Ifeq,
    /// Skips a comment, up to the matching `}`.
    Comment,
    /// Applies the anonymous function to each value of the stack.
    Each,
    /// Folds the stack with the anonymous function.
    Fold,
    /// Folds the stack with the anonymous function, keeping each result.
    Scan,
    /// Factorial of an unsigned number.
    Factorial,
    /// Greatest common divisor of two unsigned numbers.
    Gcd,
    /// The sum of 1 to `n`.
    Triangle,
    /// Bitwise complement.
    Not,
    /// Bitwise and.
    And,
    /// Complement of bitwise and.
    Nand,
    /// Bitwise or.
    Or,
    /// Complement of bitwise or.
    Nor,
    /// Bitwise exclusive or.
    Xor,
    /// The number of bits that are set.
    Ones,
    /// Decimal to hexadecimal.
    DecHex,
    /// Hexadecimal to decimal.
    HexDec,
    /// Decimal to binary.
    DecBin,
    /// Binary to decimal.
    BinDec,
    /// Binary to hexadecimal.
    BinHex,
    /// Hexadecimal to binary.
    HexBin,
    /// A colour `rrggbb` to its three components in decimal.
    HexRgb,
    /// Three components in decimal to a colour `rrggbb`.
    RgbHex,
    /// A command whose body the host supplies.
    Host,
}

/// What a step tells the loop that runs it.
pub enum Signal {
    /// Go on with the next token.
    Next,
    /// A conditional waits for the host to say whether `a` equals `b`.
    Compare { a: Text, b: Text },
    /// The host is to run the command `command`.
    Host { command: Text },
    /// The run cannot go on.
    Fail { fault: FaultModel },
}

/// The state of an interpreter.
pub struct Machine {
    /// The operation queue: the tokens still to be dispatched.
    pub ops: Seq<Text>,
    /// The value stack, top last.
    pub stack: Seq<Text>,
    /// The named memory.
    pub mem: Map<Text, Text>,
    /// The memory slot `a`.
    pub mem_a: Text,
    /// The memory slot `b`.
    pub mem_b: Text,
    /// The memory slot `c`.
    pub mem_c: Text,
    /// The function registry.
    pub fns: Seq<FunctionModel>,
    /// The command table.
    pub cmds: Map<Text, Command>,
    /// The warnings given so far.
    pub warnings: Seq<WarningModel>,
}

/// How a token is resolved, in the order in which the cases are tried.
pub enum Meaning {
    /// A native command.
    Native { command: Command },
    /// The user-defined function at index `index` of the registry.
    Function { index: int },
    /// A memory cell that holds `value`.
    Memory { value: Text },
    /// A literal value.
    Literal,
}

/// `n` factorial.
pub open spec fn factorial_of(n: nat) -> nat
    decreases n,
{
    if n == 0 {
        1
    } else {
        n * factorial_of((n - 1) as nat)
    }
}

/// The greatest common divisor of `a` and `b`, by Euclid's rule.
pub open spec fn gcd_of(a: nat, b: nat) -> nat
    decreases b,
{
    if b == 0 {
        a
    } else {
        gcd_of(b, a % b)
    }
}

/// The number of ones in the binary writing of `n`.
pub open spec fn ones_of(n: nat) -> nat
    decreases n,
{
    if n == 0 {
        0
    } else {
        n % 2 + ones_of(n / 2)
    }
}

/// The number of operands of an integer command.
pub open spec fn int_arity(c: Command) -> nat {
    match c {
        Command::Gcd
        | Command::And
        | Command::Nand
        | Command::Or
        | Command::Nor
        | Command::Xor => 2,
        _ => 1,
    }
}

/// Whether `c` is a command on unsigned 64-bit integers.
pub open spec fn is_int_command(c: Command) -> bool {
    match c {
        Command::Factorial
        | Command::Gcd
        | Command::Triangle
        | Command::Not
        | Command::And
        | Command::Nand
        | Command::Or
        | Command::Nor
        | Command::Xor
        | Command::Ones => true,
        _ => false,
    }
}

/// The result of integer command `c` on `a` and, where it has two operands,
/// `b`; `None` where it does not fit in 64 bits.
pub open spec fn int_result(c: Command, a: u64, b: u64) -> Option<u64> {
    match c {
        Command::Factorial => if factorial_of(a as nat) <= u64::MAX {
            Some(factorial_of(a as nat) as u64)
        } else {
            None
        },
        Command::Gcd => Some(gcd_of(a as nat, b as nat) as u64),
        Command::Triangle => if a * (a + 1) <= u64::MAX {
            Some((a * (a + 1) / 2) as u64)
        } else {
            None
        },
        Command::Not => Some(!a),
        Command::And => Some(a & b),
        Command::Nand => Some(!(a & b)),
        Command::Or => Some(a | b),
        Command::Nor => Some(!(a | b)),
        Command::Xor => Some(a ^ b),
        _ => Some(ones_of(a as nat) as u64),
    }
}

/// The number that a value stands for under a reading.
pub open spec fn reading_value(s: Text, reading: Reading) -> Option<int> {
    match reading {
        Reading::Signed => within(signed_reading(s, 10), i64::MIN as int, i64::MAX as int),
        Reading::Unsigned => within(unsigned_reading(s, 10), 0, u64::MAX as int),
        Reading::Size => within(unsigned_reading(s, 10), 0, usize::MAX as int),
        Reading::Byte => within(unsigned_reading(s, 10), 0, 255),
        Reading::Hex => within(signed_reading(s, 16), i64::MIN as int, i64::MAX as int),
        Reading::HexByte => within(unsigned_reading(s, 16), 0, 255),
        Reading::Binary => within(signed_reading(s, 2), i64::MIN as int, i64::MAX as int),
    }
}

/// The reading that a conversion command asks of its operand.
pub open spec fn conversion_reading(c: Command) -> Reading {
    match c {
        Command::HexDec | Command::HexBin => Reading::Hex,
        Command::BinDec | Command::BinHex => Reading::Binary,
        _ => Reading::Unsigned,
    }
}

/// Whether `c` converts one number between two writings.
pub open spec fn is_conversion(c: Command) -> bool {
    match c {
        Command::DecHex
        | Command::HexDec
        | Command::DecBin
        | Command::BinDec
        | Command::BinHex
        | Command::HexBin => true,
        _ => false,
    }
}

/// What conversion command `c` writes for the number `v`.
pub open spec fn conversion_text(c: Command, v: int) -> Text {
    match c {
        Command::DecHex => digits(v as nat, 16),
        Command::DecBin => digits(v as nat, 2),
        Command::BinHex => digits(bit_pattern(v), 16),
        Command::HexBin => digits(bit_pattern(v), 2),
        _ => decimal(v),
    }
}

/// `n` in hexadecimal, with a leading zero where it has one digit only.
pub open spec fn hex_pair(n: nat) -> Text {
    if n < 16 {
        seq!['0'] + digits(n, 16)
    } else {
        digits(n, 16)
    }
}

/// The decimal writings of 1 to `n`, in order.
pub open spec fn count_up(n: nat) -> Seq<Text> {
    Seq::new(n, |i: int| decimal(i + 1))
}

/// The fault of a command that found fewer than `needed` values.
pub open spec fn underflow(op: Text, needed: nat) -> FaultModel {
    FaultModel::StackUnderflow { command: op, needed }
}

impl Machine {
    /// The top value of the stack.
    pub open spec fn top(self) -> Text {
        self.stack.last()
    }

    /// The value at `depth` below the top of the stack (0 is the top).
    pub open spec fn below(self, depth: int) -> Text {
        self.stack[self.stack.len() - 1 - depth]
    }

    /// The state with another stack.
    pub open spec fn with_stack(self, stack: Seq<Text>) -> Machine {
        Machine { stack, ..self }
    }

    /// The state with another operation queue.
    pub open spec fn with_ops(self, ops: Seq<Text>) -> Machine {
        Machine { ops, ..self }
    }

    /// The state without the top `n` values of the stack.
    pub open spec fn popped(self, n: int) -> Machine {
        self.with_stack(self.stack.take(self.stack.len() - n))
    }

    /// The state with `t` pushed on the stack.
    pub open spec fn pushed(self, t: Text) -> Machine {
        self.with_stack(self.stack.push(t))
    }

    /// The state with `span` spliced onto the front of the operation queue.
    pub open spec fn spliced(self, span: Seq<Text>) -> Machine {
        self.with_ops(span + self.ops)
    }

    /// The state with one more warning.
    pub open spec fn warned(self, w: WarningModel) -> Machine {
        Machine { warnings: self.warnings.push(w), ..self }
    }

    /// Whether an anonymous function is defined.
    pub open spec fn has_lambda(self) -> bool {
        find_function(self.fns, 0, lambda_name()) is Some
    }

    /// How token `t` is resolved: a native command before a user-defined
    /// function, that before a memory cell, and a literal where it is none
    /// of them.
    pub open spec fn meaning(self, t: Text) -> Meaning {
        if self.cmds.dom().contains(t) {
            Meaning::Native { command: self.cmds[t] }
        } else if find_function(self.fns, 0, t) is Some {
            Meaning::Function { index: find_function(self.fns, 0, t).unwrap() }
        } else if self.mem.dom().contains(t) {
            Meaning::Memory { value: self.mem[t] }
        } else {
            Meaning::Literal
        }
    }

    /// `cls`: the stack is emptied.
    pub open spec fn after_cls(self) -> (Machine, Signal) {
        (self.with_stack(Seq::empty()), Signal::Next)
    }

    /// `drop`: the top value goes; on an empty stack a warning is given.
    pub open spec fn after_drop(self, op: Text) -> (Machine, Signal) {
        if self.stack.len() > 0 {
            (self.popped(1), Signal::Next)
        } else {
            (self.warned(WarningModel::EmptyStack { command: op, times: 1 }), Signal::Next)
        }
    }

    /// `dropn`: a count of at least 1 is taken, then the top value goes;
    /// where no value is left a warning stands for the whole count.
    pub open spec fn after_dropn(self, op: Text) -> (Machine, Signal) {
        if self.stack.len() < 1 {
            (self, Signal::Fail { fault: underflow(op, 1) })
        } else {
            match reading_value(self.top(), Reading::Signed) {
                None => (
                    self.popped(1),
                    Signal::Fail {
                        fault: FaultModel::BadValue { value: self.top(), reading: Reading::Signed },
                    },
                ),
                Some(count) => if count < 1 {
                    (
                        self.popped(1),
                        Signal::Fail {
                            fault: FaultModel::BadArgument { command: op, argument: self.top() },
                        },
                    )
                } else if self.stack.len() > 1 {
                    (self.popped(2), Signal::Next)
                } else {
                    (
                        self.popped(1).warned(
                            WarningModel::EmptyStack { command: op, times: count as nat },
                        ),
                        Signal::Next,
                    )
                },
            }
        }
    }

    /// `dup`: the top value is pushed once more.
    pub open spec fn after_dup(self, op: Text) -> (Machine, Signal) {
        if self.stack.len() < 1 {
            (self, Signal::Fail { fault: underflow(op, 1) })
        } else {
            (self.pushed(self.top()), Signal::Next)
        }
    }

    /// `io`: a count `n` of at least 1 is taken and 1 to `n` are pushed.
    pub open spec fn after_iota(self, op: Text) -> (Machine, Signal) {
        if self.stack.len() < 1 {
            (self, Signal::Fail { fault: underflow(op, 1) })
        } else {
            match reading_value(self.top(), Reading::Signed) {
                None => (
                    self.popped(1),
                    Signal::Fail {
                        fault: FaultModel::BadValue { value: self.top(), reading: Reading::Signed },
                    },
                ),
                Some(n) => if n < 1 {
                    (
                        self.popped(1),
                        Signal::Fail {
                            fault: FaultModel::BadArgument { command: op, argument: self.top() },
                        },
                    )
                } else {
                    (self.with_stack(self.popped(1).stack + count_up(n as nat)), Signal::Next)
                },
            }
        }
    }

    /// `rev`: the stack is reversed.
    pub open spec fn after_rev(self) -> (Machine, Signal) {
        (self.with_stack(self.stack.reverse()), Signal::Next)
    }

    /// `roll`: the top value moves to the bottom.
    pub open spec fn after_roll(self, op: Text) -> (Machine, Signal) {
        if self.stack.len() < 1 {
            (self, Signal::Fail { fault: underflow(op, 1) })
        } else {
            (self.with_stack(seq![self.top()] + self.stack.drop_last()), Signal::Next)
        }
    }

    /// `rot`: the bottom value moves to the top.
    pub open spec fn after_rot(self, op: Text) -> (Machine, Signal) {
        if self.stack.len() < 1 {
            (self, Signal::Fail { fault: underflow(op, 1) })
        } else {
            (self.with_stack(self.stack.skip(1).push(self.stack[0])), Signal::Next)
        }
    }

    /// `rolln` (with `up` false) and `rotn` (with `up` true): a count `n`
    /// is taken, which the values left must reach; then the top `n` values
    /// move to the bottom, or the bottom `n` values to the top.
    pub open spec fn after_turn(self, op: Text, up: bool) -> (Machine, Signal) {
        if self.stack.len() < 2 {
            (self, Signal::Fail { fault: underflow(op, 2) })
        } else {
            let rest = self.popped(1).stack;
            match reading_value(self.top(), Reading::Size) {
                None => (
                    self.popped(1),
                    Signal::Fail {
                        fault: FaultModel::BadValue { value: self.top(), reading: Reading::Size },
                    },
                ),
                Some(n) => if n > rest.len() {
                    (
                        self.popped(1),
                        Signal::Fail {
                            fault: FaultModel::BadArgument { command: op, argument: self.top() },
                        },
                    )
                } else if up {
                    (self.with_stack(rest.skip(n) + rest.take(n)), Signal::Next)
                } else {
                    (
                        self.with_stack(rest.skip(rest.len() - n) + rest.take(rest.len() - n)),
                        Signal::Next,
                    )
                },
            }
        }
    }

    /// `swap`: the two top values change places.
    pub open spec fn after_swap(self, op: Text) -> (Machine, Signal) {
        if self.stack.len() < 2 {
            (self, Signal::Fail { fault: underflow(op, 2) })
        } else {
            (self.popped(2).pushed(self.below(0)).pushed(self.below(1)), Signal::Next)
        }
    }

    /// `take`: only the top value stays.
    pub open spec fn after_take(self, op: Text) -> (Machine, Signal) {
        if self.stack.len() < 1 {
            (self, Signal::Fail { fault: underflow(op, 1) })
        } else {
            (self.with_stack(seq![self.top()]), Signal::Next)
        }
    }

    /// `taken`: a count `n` of at least 1 is taken and only the top `n`
    /// values stay; where fewer are left they all stay and a warning is
    /// given.
    pub open spec fn after_taken(self, op: Text) -> (Machine, Signal) {
        if self.stack.len() < 1 {
            (self, Signal::Fail { fault: underflow(op, 1) })
        } else {
            let rest = self.popped(1).stack;
            match reading_value(self.top(), Reading::Size) {
                None => (
                    self.popped(1),
                    Signal::Fail {
                        fault: FaultModel::BadValue { value: self.top(), reading: Reading::Size },
                    },
                ),
                Some(n) => if n < 1 {
                    (
                        self.popped(1),
                        Signal::Fail {
                            fault: FaultModel::BadArgument { command: op, argument: self.top() },
                        },
                    )
                } else if n > rest.len() {
                    (
                        self.popped(1).warned(
                            WarningModel::TakeBeyondDepth {
                                command: op,
                                asked: n as nat,
                                depth: rest.len(),
                            },
                        ),
                        Signal::Next,
                    )
                } else {
                    (self.with_stack(rest.skip(rest.len() - n)), Signal::Next)
                },
            }
        }
    }

    /// `store`: the top value is the key under which the value below it is
    /// stored; both leave the stack.
    pub open spec fn after_store(self, op: Text) -> (Machine, Signal) {
        if self.stack.len() < 2 {
            (self, Signal::Fail { fault: underflow(op, 2) })
        } else {
            (
                Machine { mem: self.mem.insert(self.below(0), self.below(1)), ..self.popped(2) },
                Signal::Next,
            )
        }
    }

    /// The value of a memory slot.
    pub open spec fn slot(self, slot: Slot) -> Text {
        match slot {
            Slot::A => self.mem_a,
            Slot::B => self.mem_b,
            Slot::C => self.mem_c,
        }
    }

    /// The state with another value in a memory slot.
    pub open spec fn with_slot(self, slot: Slot, value: Text) -> Machine {
        match slot {
            Slot::A => Machine { mem_a: value, ..self },
            Slot::B => Machine { mem_b: value, ..self },
            Slot::C => Machine { mem_c: value, ..self },
        }
    }

    /// A store command of a slot: the top value leaves the stack for the
    /// slot.
    pub open spec fn after_save(self, slot: Slot, op: Text) -> (Machine, Signal) {
        if self.stack.len() < 1 {
            (self, Signal::Fail { fault: underflow(op, 1) })
        } else {
            (self.popped(1).with_slot(slot, self.top()), Signal::Next)
        }
    }

    /// A recall command of a slot: the value of the slot is pushed, and
    /// stays in the slot.
    pub open spec fn after_recall(self, slot: Slot) -> (Machine, Signal) {
        (self.pushed(self.slot(slot)), Signal::Next)
    }

    /// `(`: the function that the queue spells joins the registry.
    pub open spec fn after_function(self) -> (Machine, Signal) {
        match function_capture(self.ops) {
            Some((f, rest)) => (Machine { fns: self.fns.push(f), ops: rest, ..self }, Signal::Next),
            None => (
                self,
                Signal::Fail { fault: FaultModel::Unterminated { construct: Construct::Function } },
            ),
        }
    }

    /// `[`: the body that the queue spells becomes the anonymous function,
    /// in place of any earlier one.
    pub open spec fn after_lambda(self) -> (Machine, Signal) {
        match lambda_capture(self.ops) {
            Some((body, rest)) => (
                Machine {
                    fns: without(self.fns, lambda_name()).push(
                        FunctionModel { name: lambda_name(), fops: body },
                    ),
                    ops: rest,
                    ..self
                },
                Signal::Next,
            ),
            None => (
                self,
                Signal::Fail { fault: FaultModel::Unterminated { construct: Construct::Lambda } },
            ),
        }
    }

    /// `ifeq`: two values leave the stack for the host to compare.
    pub open spec fn after_ifeq(self, op: Text) -> (Machine, Signal) {
        if self.stack.len() < 2 {
            (self, Signal::Fail { fault: underflow(op, 2) })
        } else {
            (self.popped(2), Signal::Compare { a: self.below(1), b: self.below(0) })
        }
    }

    /// The answer to `Signal::Compare`: the conditional at the front of the
    /// queue gives way to the branch that `equal` selects.
    pub open spec fn after_branch(self, equal: bool) -> (Machine, Signal) {
        match branch(self.ops, equal) {
            Some(next) => (self.with_ops(next), Signal::Next),
            None => (
                self,
                Signal::Fail {
                    fault: FaultModel::Unterminated { construct: Construct::Conditional },
                },
            ),
        }
    }

    /// `{`: the comment at the front of the queue goes.
    pub open spec fn after_comment(self) -> (Machine, Signal) {
        match comment_skip(self.ops) {
            Some(next) => (self.with_ops(next), Signal::Next),
            None => (
                self,
                Signal::Fail { fault: FaultModel::Unterminated { construct: Construct::Comment } },
            ),
        }
    }

    /// `map`, `fold` and `scan`: with at least `needed` values on the stack
    /// and an anonymous function defined, `tokens` go in front of the queue.
    pub open spec fn after_combinator(self, op: Text, needed: nat, tokens: Seq<Text>) -> (
        Machine,
        Signal,
    ) {
        if self.stack.len() < needed {
            (self, Signal::Fail { fault: underflow(op, needed) })
        } else if !self.has_lambda() {
            (self, Signal::Fail { fault: FaultModel::NoLambda { command: op } })
        } else {
            (self.spliced(tokens), Signal::Next)
        }
    }

    /// `map`: one application for each value that the stack holds now.
    pub open spec fn after_map(self, op: Text) -> (Machine, Signal) {
        self.after_combinator(op, 1, map_tokens(self.stack.len()))
    }

    /// `fold`: one application for each value but one.
    pub open spec fn after_fold(self, op: Text) -> (Machine, Signal) {
        self.after_combinator(op, 3, fold_tokens(self.stack.len()))
    }

    /// `scan`: one application for each value but one, each result kept.
    pub open spec fn after_scan(self, op: Text) -> (Machine, Signal) {
        self.after_combinator(op, 1, scan_tokens(self.stack.len()))
    }

    /// The fault of a value that cannot be read as `reading`.
    pub open spec fn bad_value(value: Text, reading: Reading) -> Signal {
        Signal::Fail { fault: FaultModel::BadValue { value, reading } }
    }

    /// An integer command: its operands are taken from the stack, the last
    /// first, and the result is pushed in decimal.
    pub open spec fn after_int(self, c: Command, op: Text) -> (Machine, Signal) {
        let n = int_arity(c);
        if self.stack.len() < n {
            (self, Signal::Fail { fault: underflow(op, n) })
        } else if n == 1 {
            match reading_value(self.top(), Reading::Unsigned) {
                None => (self.popped(1), Self::bad_value(self.top(), Reading::Unsigned)),
                Some(a) => match int_result(c, a as u64, 0) {
                    Some(v) => (self.popped(1).pushed(decimal(v as int)), Signal::Next),
                    None => (
                        self.popped(1),
                        Signal::Fail { fault: FaultModel::Overflow { command: op } },
                    ),
                },
            }
        } else {
            match reading_value(self.below(0), Reading::Unsigned) {
                None => (self.popped(1), Self::bad_value(self.below(0), Reading::Unsigned)),
                Some(b) => match reading_value(self.below(1), Reading::Unsigned) {
                    None => (self.popped(2), Self::bad_value(self.below(1), Reading::Unsigned)),
                    Some(a) => match int_result(c, a as u64, b as u64) {
                        Some(v) => (self.popped(2).pushed(decimal(v as int)), Signal::Next),
                        None => (
                            self.popped(2),
                            Signal::Fail { fault: FaultModel::Overflow { command: op } },
                        ),
                    },
                },
            }
        }
    }

    /// A conversion: the top value is read in one writing and pushed in
    /// another.
    pub open spec fn after_conversion(self, c: Command, op: Text) -> (Machine, Signal) {
        if self.stack.len() < 1 {
            (self, Signal::Fail { fault: underflow(op, 1) })
        } else {
            match reading_value(self.top(), conversion_reading(c)) {
                None => (self.popped(1), Self::bad_value(self.top(), conversion_reading(c))),
                Some(v) => (self.popped(1).pushed(conversion_text(c, v)), Signal::Next),
            }
        }
    }

    /// `hex_rgb`: the top value, at least five ASCII characters, is cut
    /// behind its second and its fourth character, and the three parts are
    /// pushed as the decimal writings of their hexadecimal readings.
    pub open spec fn after_hexrgb(self, op: Text) -> (Machine, Signal) {
        if self.stack.len() < 1 {
            (self, Signal::Fail { fault: underflow(op, 1) })
        } else {
            let s = self.top();
            if !is_ascii_chars(s) || s.len() < 5 {
                (
                    self.popped(1),
                    Signal::Fail { fault: FaultModel::BadArgument { command: op, argument: s } },
                )
            } else {
                match (
                    reading_value(s.subrange(0, 2), Reading::Hex),
                    reading_value(s.subrange(2, 4), Reading::Hex),
                    reading_value(s.subrange(4, s.len() as int), Reading::Hex),
                ) {
                    (Some(r), Some(g), Some(b)) => (
                        self.popped(1).pushed(decimal(r)).pushed(decimal(g)).pushed(decimal(b)),
                        Signal::Next,
                    ),
                    _ => (self.popped(1), Self::bad_value(s, Reading::Hex)),
                }
            }
        }
    }

    /// `rgb_hex`: three numbers, blue on top, are taken and pushed as one
    /// colour, each in at least two hexadecimal digits.
    pub open spec fn after_rgbhex(self, op: Text) -> (Machine, Signal) {
        if self.stack.len() < 3 {
            (self, Signal::Fail { fault: underflow(op, 3) })
        } else {
            match reading_value(self.below(0), Reading::Unsigned) {
                None => (self.popped(1), Self::bad_value(self.below(0), Reading::Unsigned)),
                Some(b) => match reading_value(self.below(1), Reading::Unsigned) {
                    None => (self.popped(2), Self::bad_value(self.below(1), Reading::Unsigned)),
                    Some(g) => match reading_value(self.below(2), Reading::Unsigned) {
                        None => (self.popped(3), Self::bad_value(self.below(2), Reading::Unsigned)),
                        Some(r) => (
                            self.popped(3).pushed(
                                hex_pair(r as nat) + hex_pair(g as nat) + hex_pair(b as nat),
                            ),
                            Signal::Next,
                        ),
                    },
                },
            }
        }
    }

    /// What native command `c`, called as `op`, makes of the state.
    pub open spec fn after_native(self, c: Command, op: Text) -> (Machine, Signal) {
        match c {
            Command::Cls => self.after_cls(),
            Command::Drop => self.after_drop(op),
            Command::Dropn => self.after_dropn(op),
            Command::Dup => self.after_dup(op),
            Command::Iota => self.after_iota(op),
            Command::Rev => self.after_rev(),
            Command::Roll => self.after_roll(op),
            Command::Rolln => self.after_turn(op, false),
            Command::Rot => self.after_rot(op),
            Command::Rotn => self.after_turn(op, true),
            Command::Swap => self.after_swap(op),
            Command::Take => self.after_take(op),
            Command::Taken => self.after_taken(op),
            Command::Store => self.after_store(op),
            Command::Save { slot } => self.after_save(slot, op),
            Command::Recall { slot } => self.after_recall(slot),
            Command::Function => self.after_function(),
            Command::Lambda => self.after_lambda(),
            Command::Ifeq => self.after_ifeq(op),
            Command::Comment => self.after_comment(),
            Command::Each => self.after_map(op),
            Command::Fold => self.after_fold(op),
            Command::Scan => self.after_scan(op),
            Command::HexRgb => self.after_hexrgb(op),
            Command::RgbHex => self.after_rgbhex(op),
            Command::Host => (self, Signal::Host { command: op }),
            _ => if is_conversion(c) {
                self.after_conversion(c, op)
            } else {
                self.after_int(c, op)
            },
        }
    }

    /// What the dispatch of token `t` makes of the state.
    pub open spec fn after_token(self, t: Text) -> (Machine, Signal) {
        match self.meaning(t) {
            Meaning::Native { command } => self.after_native(command, t),
            Meaning::Function { index } => (self.spliced(self.fns[index].fops), Signal::Next),
            Meaning::Memory { value } => (self.spliced(seq![value]), Signal::Next),
            Meaning::Literal => (self.pushed(t), Signal::Next),
        }
    }

    /// One step of the dispatch loop on a queue that is not empty: the
    /// first token leaves the queue and is dispatched.
    pub open spec fn step(self) -> (Machine, Signal) {
        self.with_ops(self.ops.skip(1)).after_token(self.ops[0])
    }
}

/// Why a run came to a halt.
pub enum HaltModel {
    /// The operation queue is empty.
    Finished,
    /// The step budget is used up.
    Limit,
    /// A conditional waits for the host to say whether `a` equals `b`.
    Compare { a: Text, b: Text },
    /// The host is to run the command `command`.
    Host { command: Text },
    /// A fatal error.
    Fault { fault: FaultModel },
}

/// Where a run of at most `limit` steps from state `m` comes to a halt, and
/// why.
pub open spec fn run(m: Machine, limit: nat) -> (Machine, HaltModel)
    decreases limit,
{
    if m.ops.len() == 0 {
        (m, HaltModel::Finished)
    } else if limit == 0 {
        (m, HaltModel::Limit)
    } else {
        let (next, signal) = m.step();
        match signal {
            Signal::Next => run(next, (limit - 1) as nat),
            Signal::Compare { a, b } => (next, HaltModel::Compare { a, b }),
            Signal::Host { command } => (next, HaltModel::Host { command }),
            Signal::Fail { fault } => (next, HaltModel::Fault { fault }),
        }
    }
}

} // verus!
