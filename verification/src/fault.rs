//! What can go wrong while a program runs, and the one condition that is
//! reported without stopping it.
use vstd::prelude::*;

verus! {

/// The construct that was still open when the operation queue ran out.
#[derive(Clone, Copy, Debug, PartialEq, Eq, Structural)]
pub enum Construct {
    /// A named function definition, `(` .. `)`.
    Function,
    /// An anonymous function definition, `[` .. `]`.
    Lambda,
    /// A conditional, `ifeq` .. `fi`.
    Conditional,
    /// A comment, `{` .. `}`.
    Comment,
}

/// The numeric reading that a command asked of a value.
#[derive(Clone, Copy, Debug, PartialEq, Eq, Structural)]
pub enum Reading {
    /// A decimal number with an optional sign.
    Signed,
    /// A decimal number without a minus sign.
    Unsigned,
    /// A decimal number that can count the values of a stack.
    Size,
    /// A decimal number from 0 to 255.
    Byte,
    /// A hexadecimal number with an optional sign.
    Hex,
    /// A hexadecimal number from 0 to ff.
    HexByte,
    /// A binary number with an optional sign.
    Binary,
}

/// A fatal error: the run cannot go on.
#[derive(Debug)]
pub enum Fault {
    /// A command needs `needed` values on the stack and found fewer.
    StackUnderflow { command: String, needed: usize },
    /// A value taken from the stack cannot be read as the command needs it.
    BadValue { value: String, reading: Reading },
    /// A command was given an argument outside of what it accepts.
    BadArgument { command: String, argument: String },
    /// The operation queue ended inside a construct.
    Unterminated { construct: Construct },
    /// A combinator was called before any anonymous function was defined.
    NoLambda { command: String },
    /// The result of a command does not fit in 64 bits.
    Overflow { command: String },
    /// The stack could not be written out as a snapshot.
    SnapshotFailed,
}

/// A fatal error as contracts see it.
pub enum FaultModel {
    StackUnderflow { command: Seq<char>, needed: nat },
    BadValue { value: Seq<char>, reading: Reading },
    BadArgument { command: Seq<char>, argument: Seq<char> },
    Unterminated { construct: Construct },
    NoLambda { command: Seq<char> },
    Overflow { command: Seq<char> },
    SnapshotFailed,
}

impl View for Fault {
    type V = FaultModel;

    open spec fn view(&self) -> FaultModel {
        match *self {
            Fault::StackUnderflow { command, needed } => FaultModel::StackUnderflow {
                command: command@,
                needed: needed as nat,
            },
            Fault::BadValue { value, reading } => FaultModel::BadValue { value: value@, reading },
            Fault::BadArgument { command, argument } => FaultModel::BadArgument {
                command: command@,
                argument: argument@,
            },
            Fault::Unterminated { construct } => FaultModel::Unterminated { construct },
            Fault::NoLambda { command } => FaultModel::NoLambda { command: command@ },
            Fault::Overflow { command } => FaultModel::Overflow { command: command@ },
            Fault::SnapshotFailed => FaultModel::SnapshotFailed,
        }
    }
}

/// A condition that is reported while the run goes on.
#[derive(Debug)]
pub enum Warning {
    /// A command that removes values found the stack empty, `times` times
    /// over.
    EmptyStack { command: String, times: u64 },
    /// `taken` was asked for more values than the stack holds.
    TakeBeyondDepth { command: String, asked: usize, depth: usize },
    /// A stack snapshot could not be read; the stack stays as it was.
    CorruptSnapshot,
}

/// A warning as contracts see it.
pub enum WarningModel {
    EmptyStack { command: Seq<char>, times: nat },
    TakeBeyondDepth { command: Seq<char>, asked: nat, depth: nat },
    CorruptSnapshot,
}

impl View for Warning {
    type V = WarningModel;

    open spec fn view(&self) -> WarningModel {
        match *self {
            Warning::EmptyStack { command, times } => WarningModel::EmptyStack {
                command: command@,
                times: times as nat,
            },
            Warning::TakeBeyondDepth { command, asked, depth } => WarningModel::TakeBeyondDepth {
                command: command@,
                asked: asked as nat,
                depth: depth as nat,
            },
            Warning::CorruptSnapshot => WarningModel::CorruptSnapshot,
        }
    }
}

} // verus!
