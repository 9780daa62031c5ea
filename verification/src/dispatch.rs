//! The dispatch loop: how one token is resolved and carried out, and how the
//! operation queue is run until something stops it.
use vstd::prelude::*;
use vstd::string::*;
use crate::commands::standard_commands;
use crate::fault::Fault;
use crate::function::{is_user_function, models};
use crate::interp::{signal_of, Halt, Interpreter, Step};
use crate::machine::{run, Command, Machine, Meaning};
use crate::queue::{copy_tokens, texts, Text};
use crate::table::Table;

verus! {

/// How a token is resolved.
#[derive(Debug)]
pub enum Resolved {
    /// A native command.
    Native { command: Command },
    /// The user-defined function at index `index` of the registry.
    Function { index: usize },
    /// A memory cell that holds `value`.
    Memory { value: String },
    /// A literal value.
    Literal,
}

impl View for Resolved {
    type V = Meaning;

    open spec fn view(&self) -> Meaning {
        match *self {
            Resolved::Native { command } => Meaning::Native { command },
            Resolved::Function { index } => Meaning::Function { index: index as int },
            Resolved::Memory { value } => Meaning::Memory { value: value@ },
            Resolved::Literal => Meaning::Literal,
        }
    }
}

/// The state of a new interpreter.
pub open spec fn initial() -> Machine {
    Machine {
        ops: Seq::empty(),
        stack: Seq::empty(),
        mem: Map::empty(),
        mem_a: seq!['0'],
        mem_b: seq!['0'],
        mem_c: seq!['0'],
        fns: Seq::empty(),
        cmds: standard_commands(Map::empty()),
        warnings: Seq::empty(),
    }
}

impl Interpreter {
    /// An interpreter with the standard command table and nothing else.
    pub fn new() -> (r: Self)
        ensures
            r@ == initial(),
    {
        let mut fresh = Interpreter {
            ops: Vec::new(),
            stack: Vec::new(),
            mem: Table::new(),
            mem_a: String::from_str("0"),
            mem_b: String::from_str("0"),
            mem_c: String::from_str("0"),
            fns: Vec::new(),
            cmdmap: Table::new(),
            warnings: Vec::new(),
        };
        assert(fresh@.ops =~= Seq::<Text>::empty());
        assert(fresh@.mem =~= Map::<Text, Text>::empty());
        assert(fresh@.fns =~= Seq::empty());
        proof {
            reveal_strlit("0");
            assert("0"@ =~= seq!['0']);
        }
        assert(fresh@.warnings =~= Seq::empty());
        fresh.init();
        fresh
    }

    /// Resolves a token: a native command before a user-defined function,
    /// that before a memory cell, and a literal where it is none of them.
    pub fn resolve(&self, op: &str) -> (r: Resolved)
        ensures
            r@ == self@.meaning(op@),
            r matches Resolved::Function { index } ==> index < self.fns.len(),
    {
        match self.cmdmap.get(op) {
            Some(command) => {
                return Resolved::Native { command: *command };
            },
            None => {},
        }
        match is_user_function(&self.fns, op) {
            Some(index) => {
                return Resolved::Function { index };
            },
            None => {},
        }
        match self.mem.get(op) {
            Some(value) => Resolved::Memory { value: value.clone() },
            None => Resolved::Literal,
        }
    }

    /// Carries out native command `c`, called as `op`.
    pub fn native(&mut self, c: Command, op: &str) -> (r: Result<Step, Fault>)
        ensures
            (final(self)@, signal_of(r)) == old(self)@.after_native(c, op@),
    {
        match c {
            Command::Cls => self.c_cls(op),
            Command::Drop => self.c_drop(op),
            Command::Dropn => self.c_dropn(op),
            Command::Dup => self.c_dup(op),
            Command::Iota => self.c_iota(op),
            Command::Rev => self.c_flip(op),
            Command::Roll => self.c_roll(op),
            Command::Rolln => self.c_rolln(op),
            Command::Rot => self.c_rot(op),
            Command::Rotn => self.c_rotn(op),
            Command::Swap => self.c_swap(op),
            Command::Take => self.c_take(op),
            Command::Taken => self.c_taken(op),
            Command::Store => self.c_store(op),
            Command::Save { slot } => self.save(slot, op),
            Command::Recall { slot } => self.recall(slot, op),
            Command::Function => self.c_load_function(op),
            Command::Lambda => self.c_load_lambda(op),
            Command::Ifeq => self.c_ifeq(op),
            Command::Comment => self.c_comment(op),
            Command::Each => self.c_map(op),
            Command::Fold => self.c_fold(op),
            Command::Scan => self.c_scan(op),
            Command::HexRgb => self.c_hexrgb(op),
            Command::RgbHex => self.c_rgbhex(op),
            Command::Host => Ok(Step::Host { command: String::from_str(op) }),
            Command::DecHex
            | Command::HexDec
            | Command::DecBin
            | Command::BinDec
            | Command::BinHex
            | Command::HexBin => self.convert(c, op),
            Command::Factorial
            | Command::Gcd
            | Command::Triangle
            | Command::Not
            | Command::And
            | Command::Nand
            | Command::Or
            | Command::Nor
            | Command::Xor
            | Command::Ones => self.cmdgen_u64(c, op),
        }
    }

    /// Dispatches one token.
    pub fn process_node(&mut self, op: &str) -> (r: Result<Step, Fault>)
        ensures
            (final(self)@, signal_of(r)) == old(self)@.after_token(op@),
    {
        match self.resolve(op) {
            Resolved::Native { command } => self.native(command, op),
            Resolved::Function { index } => {
                let body = copy_tokens(&self.fns[index].fops);
                self.inject(body);
                Ok(Step::Next)
            },
            Resolved::Memory { value } => {
                let span: Vec<String> = vec![value];
                assert(texts(span@) =~= seq![value@]);
                self.inject(span);
                Ok(Step::Next)
            },
            Resolved::Literal => {
                self.push(String::from_str(op));
                Ok(Step::Next)
            },
        }
    }

    /// Takes the first token off the operation queue and dispatches it.
    pub fn step(&mut self) -> (r: Result<Step, Fault>)
        requires
            old(self)@.ops.len() > 0,
        ensures
            (final(self)@, signal_of(r)) == old(self)@.step(),
    {
        let op = self.ops.remove(0);
        assert(texts(self.ops@) =~= old(self)@.ops.skip(1));
        self.process_node(op.as_str())
    }

    /// Runs the operation queue for at most `limit` steps.
    pub fn run(&mut self, limit: u64) -> (r: Halt)
        ensures
            (final(self)@, r@) == run(old(self)@, limit as nat),
    {
        let mut left: u64 = limit;
        loop
            invariant
                run(self@, left as nat) == run(old(self)@, limit as nat),
            decreases left,
        {
            if self.ops.len() == 0 {
                return Halt::Finished;
            }
            if left == 0 {
                return Halt::Limit;
            }
            match self.step() {
                Ok(Step::Next) => {
                    left = left - 1;
                },
                Ok(Step::Compare { a, b }) => {
                    return Halt::Compare { a, b };
                },
                Ok(Step::Host { command }) => {
                    return Halt::Host { command };
                },
                Err(fault) => {
                    return Halt::Fault { fault };
                },
            }
        }
    }

    /// Runs the operation queue until it is empty, until the host has to
    /// act, or until a fault; and for no more steps than a `u64` can count.
    pub fn process_ops(&mut self) -> (r: Halt)
        ensures
            (final(self)@, r@) == run(old(self)@, u64::MAX as nat),
    {
        self.run(u64::MAX)
    }
}

} // verus!
