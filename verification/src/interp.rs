//! The interpreter: the operation queue, the value stack, the named memory,
//! the function registry and the command table in one owned value, with the
//! primitives that every command is made of.
use vstd::prelude::*;
use vstd::string::*;
use crate::fault::{Fault, Reading, Warning, WarningModel};
use crate::function::{models, Function};
use crate::machine::{reading_value, underflow, Command, HaltModel, Machine, Signal};
use crate::numeral::{
    i64_from_str_radix, parse_i64, parse_u64, parse_u8, parse_usize, u64_from_str_radix,
};
use crate::queue::{texts, Text};
use crate::table::Table;

verus! {

/// What a step tells the loop that runs it.
#[derive(Debug)]
pub enum Step {
    /// Go on with the next token.
    Next,
    /// A conditional waits for the host to say whether `a` equals `b`.
    Compare { a: String, b: String },
    /// The host is to run the command `command`.
    Host { command: String },
}

/// The outcome of a step as contracts see it.
pub open spec fn signal_of(r: Result<Step, Fault>) -> Signal {
    match r {
        Ok(Step::Next) => Signal::Next,
        Ok(Step::Compare { a, b }) => Signal::Compare { a: a@, b: b@ },
        Ok(Step::Host { command }) => Signal::Host { command: command@ },
        Err(fault) => Signal::Fail { fault: fault@ },
    }
}

/// Why a run came to a halt.
#[derive(Debug)]
pub enum Halt {
    /// The operation queue is empty.
    Finished,
    /// The step budget is used up.
    Limit,
    /// A conditional waits for the host to say whether `a` equals `b`.
    Compare { a: String, b: String },
    /// The host is to run the command `command`.
    Host { command: String },
    /// A fatal error.
    Fault { fault: Fault },
}

impl View for Halt {
    type V = HaltModel;

    open spec fn view(&self) -> HaltModel {
        match *self {
            Halt::Finished => HaltModel::Finished,
            Halt::Limit => HaltModel::Limit,
            Halt::Compare { a, b } => HaltModel::Compare { a: a@, b: b@ },
            Halt::Host { command } => HaltModel::Host { command: command@ },
            Halt::Fault { fault } => HaltModel::Fault { fault: fault@ },
        }
    }
}

/// The named memory as contracts see it.
pub open spec fn memory_model(m: Map<Text, String>) -> Map<Text, Text> {
    Map::new(|k: Text| m.dom().contains(k), |k: Text| m[k]@)
}

/// The warnings as contracts see them, in order.
pub open spec fn warning_models(v: Seq<Warning>) -> Seq<WarningModel> {
    Seq::new(v.len(), |i: int| v[i]@)
}

/// A postfix interpreter.
pub struct Interpreter {
    /// The operation queue: the tokens still to be dispatched.
    pub ops: Vec<String>,
    /// The value stack, top last.
    pub stack: Vec<String>,
    /// The named memory.
    pub mem: Table<String>,
    /// The memory slot `a`.
    pub mem_a: String,
    /// The memory slot `b`.
    pub mem_b: String,
    /// The memory slot `c`.
    pub mem_c: String,
    /// The function registry.
    pub fns: Vec<Function>,
    /// The command table.
    pub cmdmap: Table<Command>,
    /// The warnings given so far.
    pub warnings: Vec<Warning>,
}

impl View for Interpreter {
    type V = Machine;

    open spec fn view(&self) -> Machine {
        Machine {
            ops: texts(self.ops@),
            stack: texts(self.stack@),
            mem: memory_model(self.mem@),
            mem_a: self.mem_a@,
            mem_b: self.mem_b@,
            mem_c: self.mem_c@,
            fns: models(self.fns@),
            cmds: self.cmdmap@,
            warnings: warning_models(self.warnings@),
        }
    }
}

impl Interpreter {
    /// The values of the stack, bottom first.
    pub fn get_stack(&self) -> (r: Vec<String>)
        ensures
            texts(r@) == self@.stack,
    {
        crate::queue::copy_tokens(&self.stack)
    }

    /// The names of the native commands, each once and in no particular
    /// order.
    pub fn get_cmds(&self) -> (r: Vec<String>)
        ensures
            texts(r@).no_duplicates(),
            forall|name: Text| texts(r@).contains(name) <==> self@.cmds.dom().contains(name),
    {
        self.cmdmap.keys()
    }

    /// Enters `name` in the command table as the native command `command`,
    /// in place of what it stood for.
    pub fn build_native(&mut self, name: &str, command: Command)
        ensures
            final(self)@ == (Machine {
                cmds: old(self)@.cmds.insert(name@, command),
                ..old(self)@
            }),
    {
        self.cmdmap.insert(String::from_str(name), command);
    }

    /// Guards a command that needs `min_depth` values on the stack.
    pub fn check_stack_error(&self, min_depth: usize, command: &str) -> (r: Result<(), Fault>)
        ensures
            self@.stack.len() >= min_depth ==> r is Ok,
            self@.stack.len() < min_depth ==> r is Err && r->Err_0@ == underflow(
                command@,
                min_depth as nat,
            ),
    {
        if self.stack.len() < min_depth {
            Err(Fault::StackUnderflow { command: String::from_str(command), needed: min_depth })
        } else {
            Ok(())
        }
    }

    /// Pushes a value on the stack.
    pub fn push(&mut self, value: String)
        ensures
            final(self)@ == old(self)@.pushed(value@),
    {
        self.stack.push(value);
        assert(texts(self.stack@) =~= texts(old(self).stack@).push(value@));
    }

    /// Takes the top value off the stack.
    pub fn pop_stack_string(&mut self) -> (r: String)
        requires
            old(self)@.stack.len() > 0,
        ensures
            r@ == old(self)@.top(),
            final(self)@ == old(self)@.popped(1),
    {
        let r = self.stack.pop().unwrap();
        assert(texts(self.stack@) =~= texts(old(self).stack@).take(old(self).stack@.len() - 1));
        r
    }

    /// Gives a warning.
    pub fn warn(&mut self, warning: Warning)
        ensures
            final(self)@ == old(self)@.warned(warning@),
    {
        self.warnings.push(warning);
        assert(warning_models(self.warnings@) =~= warning_models(old(self).warnings@).push(
            warning@,
        ));
    }

    /// Splices `span` onto the front of the operation queue.
    pub fn inject(&mut self, span: Vec<String>)
        ensures
            final(self)@ == old(self)@.spliced(texts(span@)),
    {
        crate::queue::splice_front(&mut self.ops, span);
    }
}

/// Reads `value` as `reading` asks.
pub fn read_value(value: &str, reading: Reading) -> (r: Option<i128>)
    ensures
        match reading_value(value@, reading) {
            Some(v) => r == Some(v as i128),
            None => r is None,
        },
{
    match reading {
        Reading::Signed => match parse_i64(value) {
            Some(v) => Some(v as i128),
            None => None,
        },
        Reading::Unsigned => match parse_u64(value) {
            Some(v) => Some(v as i128),
            None => None,
        },
        Reading::Size => match parse_usize(value) {
            Some(v) => Some(v as i128),
            None => None,
        },
        Reading::Byte => match parse_u8(value) {
            Some(v) => Some(v as i128),
            None => None,
        },
        Reading::Hex => match i64_from_str_radix(value, 16) {
            Some(v) => Some(v as i128),
            None => None,
        },
        Reading::HexByte => match u64_from_str_radix(value, 16) {
            Some(v) => if v <= 255 {
                Some(v as i128)
            } else {
                None
            },
            None => None,
        },
        Reading::Binary => match i64_from_str_radix(value, 2) {
            Some(v) => Some(v as i128),
            None => None,
        },
    }
}

} // verus!
