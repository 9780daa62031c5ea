//! The typed pops, and the commands that move values on the stack or into
//! memory.
use vstd::prelude::*;
use vstd::string::*;
use crate::fault::{Fault, FaultModel, Reading, Warning};
use crate::interp::{memory_model, read_value, signal_of, Interpreter, Step};
use crate::machine::{count_up, reading_value, underflow, Slot};
use crate::numeral::{decimal, i64_to_decimal};
use crate::queue::{take_front, texts, Text};

verus! {

impl Interpreter {
    /// Takes the top value off the stack and reads it as `reading` asks.
    pub fn pop_reading(&mut self, reading: Reading) -> (r: Result<i128, Fault>)
        requires
            old(self)@.stack.len() > 0,
        ensures
            final(self)@ == old(self)@.popped(1),
            match reading_value(old(self)@.top(), reading) {
                Some(v) => r is Ok && r->Ok_0 == v,
                None => r is Err && r->Err_0@ == (FaultModel::BadValue {
                    value: old(self)@.top(),
                    reading,
                }),
            },
    {
        let value = self.pop_stack_string();
        match read_value(value.as_str(), reading) {
            Some(v) => Ok(v),
            None => Err(Fault::BadValue { value, reading }),
        }
    }

    /// Takes the top value off the stack as a signed decimal number.
    pub fn pop_stack_i64(&mut self) -> (r: Result<i64, Fault>)
        requires
            old(self)@.stack.len() > 0,
        ensures
            final(self)@ == old(self)@.popped(1),
            match reading_value(old(self)@.top(), Reading::Signed) {
                Some(v) => r is Ok && r->Ok_0 == v,
                None => r is Err && r->Err_0@ == (FaultModel::BadValue {
                    value: old(self)@.top(),
                    reading: Reading::Signed,
                }),
            },
    {
        match self.pop_reading(Reading::Signed) {
            Ok(v) => Ok(v as i64),
            Err(e) => Err(e),
        }
    }

    /// Takes the top value off the stack as an unsigned decimal number.
    pub fn pop_stack_u64(&mut self) -> (r: Result<u64, Fault>)
        requires
            old(self)@.stack.len() > 0,
        ensures
            final(self)@ == old(self)@.popped(1),
            match reading_value(old(self)@.top(), Reading::Unsigned) {
                Some(v) => r is Ok && r->Ok_0 == v,
                None => r is Err && r->Err_0@ == (FaultModel::BadValue {
                    value: old(self)@.top(),
                    reading: Reading::Unsigned,
                }),
            },
    {
        match self.pop_reading(Reading::Unsigned) {
            Ok(v) => Ok(v as u64),
            Err(e) => Err(e),
        }
    }

    /// Takes the top value off the stack as a decimal number that can count
    /// the values of a stack.
    pub fn pop_stack_usize(&mut self) -> (r: Result<usize, Fault>)
        requires
            old(self)@.stack.len() > 0,
        ensures
            final(self)@ == old(self)@.popped(1),
            match reading_value(old(self)@.top(), Reading::Size) {
                Some(v) => r is Ok && r->Ok_0 == v,
                None => r is Err && r->Err_0@ == (FaultModel::BadValue {
                    value: old(self)@.top(),
                    reading: Reading::Size,
                }),
            },
    {
        match self.pop_reading(Reading::Size) {
            Ok(v) => Ok(v as usize),
            Err(e) => Err(e),
        }
    }

    /// Takes the top value off the stack as a decimal number from 0 to 255.
    pub fn pop_stack_u8(&mut self) -> (r: Result<u8, Fault>)
        requires
            old(self)@.stack.len() > 0,
        ensures
            final(self)@ == old(self)@.popped(1),
            match reading_value(old(self)@.top(), Reading::Byte) {
                Some(v) => r is Ok && r->Ok_0 == v,
                None => r is Err && r->Err_0@ == (FaultModel::BadValue {
                    value: old(self)@.top(),
                    reading: Reading::Byte,
                }),
            },
    {
        match self.pop_reading(Reading::Byte) {
            Ok(v) => Ok(v as u8),
            Err(e) => Err(e),
        }
    }

    /// Takes the top value off the stack as a signed hexadecimal number.
    pub fn pop_stack_int_from_hex(&mut self) -> (r: Result<i64, Fault>)
        requires
            old(self)@.stack.len() > 0,
        ensures
            final(self)@ == old(self)@.popped(1),
            match reading_value(old(self)@.top(), Reading::Hex) {
                Some(v) => r is Ok && r->Ok_0 == v,
                None => r is Err && r->Err_0@ == (FaultModel::BadValue {
                    value: old(self)@.top(),
                    reading: Reading::Hex,
                }),
            },
    {
        match self.pop_reading(Reading::Hex) {
            Ok(v) => Ok(v as i64),
            Err(e) => Err(e),
        }
    }

    /// Takes the top value off the stack as a hexadecimal number from 0 to
    /// ff.
    pub fn pop_stack_u8_from_hex(&mut self) -> (r: Result<u8, Fault>)
        requires
            old(self)@.stack.len() > 0,
        ensures
            final(self)@ == old(self)@.popped(1),
            match reading_value(old(self)@.top(), Reading::HexByte) {
                Some(v) => r is Ok && r->Ok_0 == v,
                None => r is Err && r->Err_0@ == (FaultModel::BadValue {
                    value: old(self)@.top(),
                    reading: Reading::HexByte,
                }),
            },
    {
        match self.pop_reading(Reading::HexByte) {
            Ok(v) => Ok(v as u8),
            Err(e) => Err(e),
        }
    }

    /// Takes the top value off the stack as a signed binary number.
    pub fn pop_stack_int_from_bin(&mut self) -> (r: Result<i64, Fault>)
        requires
            old(self)@.stack.len() > 0,
        ensures
            final(self)@ == old(self)@.popped(1),
            match reading_value(old(self)@.top(), Reading::Binary) {
                Some(v) => r is Ok && r->Ok_0 == v,
                None => r is Err && r->Err_0@ == (FaultModel::BadValue {
                    value: old(self)@.top(),
                    reading: Reading::Binary,
                }),
            },
    {
        match self.pop_reading(Reading::Binary) {
            Ok(v) => Ok(v as i64),
            Err(e) => Err(e),
        }
    }

    /// `peek`: the top value, which stays on the stack, for the host to
    /// show.
    pub fn c_peek(&self, op: &str) -> (r: Result<String, Fault>)
        ensures
            match r {
                Ok(value) => self@.stack.len() >= 1 && value@ == self@.top(),
                Err(e) => self@.stack.len() < 1 && e@ == underflow(op@, 1),
            },
    {
        match self.check_stack_error(1, op) {
            Err(e) => Err(e),
            Ok(_) => Ok(self.stack[self.stack.len() - 1].clone()),
        }
    }

    /// `print`: takes the top value off the stack for the host to show.
    pub fn c_print(&mut self, op: &str) -> (r: Result<String, Fault>)
        ensures
            match r {
                Ok(value) => {
                    &&& old(self)@.stack.len() >= 1
                    &&& value@ == old(self)@.top()
                    &&& final(self)@ == old(self)@.popped(1)
                },
                Err(e) => {
                    &&& old(self)@.stack.len() < 1
                    &&& e@ == underflow(op@, 1)
                    &&& final(self)@ == old(self)@
                },
            },
    {
        match self.check_stack_error(1, op) {
            Err(e) => Err(e),
            Ok(_) => Ok(self.pop_stack_string()),
        }
    }

    /// `cls`: empties the stack.
    pub fn c_cls(&mut self, op: &str) -> (r: Result<Step, Fault>)
        ensures
            (final(self)@, signal_of(r)) == old(self)@.after_cls(),
    {
        self.stack.clear();
        assert(texts(self.stack@) =~= Seq::<Text>::empty());
        Ok(Step::Next)
    }

    /// `drop`: removes the top value, or warns where there is none.
    pub fn c_drop(&mut self, op: &str) -> (r: Result<Step, Fault>)
        ensures
            (final(self)@, signal_of(r)) == old(self)@.after_drop(op@),
    {
        if self.stack.len() > 0 {
            let _ = self.pop_stack_string();
        } else {
            self.warn(Warning::EmptyStack { command: String::from_str(op), times: 1 });
        }
        Ok(Step::Next)
    }

    /// `dropn`: takes a count, then removes the top value, or warns where
    /// there is none.
    pub fn c_dropn(&mut self, op: &str) -> (r: Result<Step, Fault>)
        ensures
            (final(self)@, signal_of(r)) == old(self)@.after_dropn(op@),
    {
        match self.check_stack_error(1, op) {
            Err(e) => {
                return Err(e);
            },
            Ok(_) => {},
        }
        let argument = self.pop_stack_string();
        match read_value(argument.as_str(), Reading::Signed) {
            None => Err(Fault::BadValue { value: argument, reading: Reading::Signed }),
            Some(count) => {
                if count < 1 {
                    Err(Fault::BadArgument { command: String::from_str(op), argument })
                } else if self.stack.len() > 0 {
                    let _ = self.pop_stack_string();
                    assert(self@.stack =~= old(self)@.popped(2).stack);
                    Ok(Step::Next)
                } else {
                    self.warn(
                        Warning::EmptyStack { command: String::from_str(op), times: count as u64 },
                    );
                    Ok(Step::Next)
                }
            },
        }
    }

    /// `dup`: pushes the top value once more.
    pub fn c_dup(&mut self, op: &str) -> (r: Result<Step, Fault>)
        ensures
            (final(self)@, signal_of(r)) == old(self)@.after_dup(op@),
    {
        match self.check_stack_error(1, op) {
            Err(e) => {
                return Err(e);
            },
            Ok(_) => {},
        }
        let top = self.stack[self.stack.len() - 1].clone();
        self.push(top);
        Ok(Step::Next)
    }

    /// `io`: takes a count `n` and pushes 1 to `n`.
    pub fn c_iota(&mut self, op: &str) -> (r: Result<Step, Fault>)
        ensures
            (final(self)@, signal_of(r)) == old(self)@.after_iota(op@),
    {
        match self.check_stack_error(1, op) {
            Err(e) => {
                return Err(e);
            },
            Ok(_) => {},
        }
        let argument = self.pop_stack_string();
        match read_value(argument.as_str(), Reading::Signed) {
            None => Err(Fault::BadValue { value: argument, reading: Reading::Signed }),
            Some(count) => {
                if count < 1 {
                    Err(Fault::BadArgument { command: String::from_str(op), argument })
                } else {
                    let n: i64 = count as i64;
                    let ghost base = self@;
                    let mut i: i64 = 0;
                    while i < n
                        invariant
                            0 <= i <= n,
                            self@ == base.with_stack(base.stack + count_up(i as nat)),
                        decreases n - i,
                    {
                        i = i + 1;
                        self.push(i64_to_decimal(i));
                        assert(base.stack + count_up(i as nat) =~= (base.stack + count_up(
                            (i - 1) as nat,
                        )).push(decimal(i as int)));
                    }
                    Ok(Step::Next)
                }
            },
        }
    }

    /// `rev`: reverses the stack.
    pub fn c_flip(&mut self, op: &str) -> (r: Result<Step, Fault>)
        ensures
            (final(self)@, signal_of(r)) == old(self)@.after_rev(),
    {
        let mut turned: Vec<String> = Vec::new();
        let mut source: Vec<String> = Vec::new();
        core::mem::swap(&mut self.stack, &mut source);
        let ghost all = texts(source@);
        while source.len() > 0
            invariant
                source.len() + turned.len() == all.len(),
                texts(source@) == all.take(source.len() as int),
                forall|j: int|
                    0 <= j < turned.len() ==> (#[trigger] turned[j])@ == all[all.len() - 1 - j],
            decreases source.len(),
        {
            let ghost before = source@;
            let v = source.pop().unwrap();
            assert(texts(before)[before.len() - 1] == v@);
            turned.push(v);
        }
        self.stack = turned;
        assert(texts(self.stack@) =~= all.reverse());
        Ok(Step::Next)
    }

    /// `roll`: moves the top value to the bottom.
    pub fn c_roll(&mut self, op: &str) -> (r: Result<Step, Fault>)
        ensures
            (final(self)@, signal_of(r)) == old(self)@.after_roll(op@),
    {
        match self.check_stack_error(1, op) {
            Err(e) => {
                return Err(e);
            },
            Ok(_) => {},
        }
        let top = self.stack.pop().unwrap();
        self.stack.insert(0, top);
        assert(texts(self.stack@) =~= seq![old(self)@.top()] + old(self)@.stack.drop_last());
        Ok(Step::Next)
    }

    /// `rot`: moves the bottom value to the top.
    pub fn c_rot(&mut self, op: &str) -> (r: Result<Step, Fault>)
        ensures
            (final(self)@, signal_of(r)) == old(self)@.after_rot(op@),
    {
        match self.check_stack_error(1, op) {
            Err(e) => {
                return Err(e);
            },
            Ok(_) => {},
        }
        let bottom = self.stack.remove(0);
        self.stack.push(bottom);
        assert(texts(self.stack@) =~= old(self)@.stack.skip(1).push(old(self)@.stack[0]));
        Ok(Step::Next)
    }

    /// `rolln` and `rotn`: takes a count `n` and moves the top `n` values to
    /// the bottom or, with `up`, the bottom `n` values to the top.
    pub fn turn(&mut self, op: &str, up: bool) -> (r: Result<Step, Fault>)
        ensures
            (final(self)@, signal_of(r)) == old(self)@.after_turn(op@, up),
    {
        match self.check_stack_error(2, op) {
            Err(e) => {
                return Err(e);
            },
            Ok(_) => {},
        }
        let argument = self.pop_stack_string();
        match read_value(argument.as_str(), Reading::Size) {
            None => Err(Fault::BadValue { value: argument, reading: Reading::Size }),
            Some(count) => {
                let len = self.stack.len();
                if count > len as i128 {
                    Err(Fault::BadArgument { command: String::from_str(op), argument })
                } else {
                    let n: usize = count as usize;
                    let cut: usize = if up {
                        n
                    } else {
                        len - n
                    };
                    let mut head = take_front(&mut self.stack, cut);
                    let ghost tail = self.stack@;
                    let ghost moved = head@;
                    self.stack.append(&mut head);
                    proof {
                        crate::queue::lemma_texts_add(tail, moved);
                    }
                    Ok(Step::Next)
                }
            },
        }
    }

    /// `rolln`: takes a count `n` and moves the top `n` values to the
    /// bottom.
    pub fn c_rolln(&mut self, op: &str) -> (r: Result<Step, Fault>)
        ensures
            (final(self)@, signal_of(r)) == old(self)@.after_turn(op@, false),
    {
        self.turn(op, false)
    }

    /// `rotn`: takes a count `n` and moves the bottom `n` values to the top.
    pub fn c_rotn(&mut self, op: &str) -> (r: Result<Step, Fault>)
        ensures
            (final(self)@, signal_of(r)) == old(self)@.after_turn(op@, true),
    {
        self.turn(op, true)
    }

    /// `swap`: exchanges the two top values.
    pub fn c_swap(&mut self, op: &str) -> (r: Result<Step, Fault>)
        ensures
            (final(self)@, signal_of(r)) == old(self)@.after_swap(op@),
    {
        match self.check_stack_error(2, op) {
            Err(e) => {
                return Err(e);
            },
            Ok(_) => {},
        }
        let b = self.pop_stack_string();
        let a = self.pop_stack_string();
        assert(self@.stack =~= old(self)@.popped(2).stack);
        self.push(b);
        self.push(a);
        Ok(Step::Next)
    }

    /// `take`: keeps the top value only.
    pub fn c_take(&mut self, op: &str) -> (r: Result<Step, Fault>)
        ensures
            (final(self)@, signal_of(r)) == old(self)@.after_take(op@),
    {
        match self.check_stack_error(1, op) {
            Err(e) => {
                return Err(e);
            },
            Ok(_) => {},
        }
        let keep = self.pop_stack_string();
        self.stack.clear();
        self.stack.push(keep);
        assert(texts(self.stack@) =~= seq![old(self)@.top()]);
        Ok(Step::Next)
    }

    /// `taken`: takes a count `n` and keeps the top `n` values only.
    pub fn c_taken(&mut self, op: &str) -> (r: Result<Step, Fault>)
        ensures
            (final(self)@, signal_of(r)) == old(self)@.after_taken(op@),
    {
        match self.check_stack_error(1, op) {
            Err(e) => {
                return Err(e);
            },
            Ok(_) => {},
        }
        let argument = self.pop_stack_string();
        match read_value(argument.as_str(), Reading::Size) {
            None => Err(Fault::BadValue { value: argument, reading: Reading::Size }),
            Some(count) => {
                let len = self.stack.len();
                if count < 1 {
                    Err(Fault::BadArgument { command: String::from_str(op), argument })
                } else if count > len as i128 {
                    self.warn(
                        Warning::TakeBeyondDepth {
                            command: String::from_str(op),
                            asked: count as usize,
                            depth: len,
                        },
                    );
                    Ok(Step::Next)
                } else {
                    let _ = take_front(&mut self.stack, len - count as usize);
                    Ok(Step::Next)
                }
            },
        }
    }

    /// `store`: takes a key and a value and stores the value under the key.
    pub fn c_store(&mut self, op: &str) -> (r: Result<Step, Fault>)
        ensures
            (final(self)@, signal_of(r)) == old(self)@.after_store(op@),
    {
        match self.check_stack_error(2, op) {
            Err(e) => {
                return Err(e);
            },
            Ok(_) => {},
        }
        let key = self.pop_stack_string();
        let value = self.pop_stack_string();
        assert(self@.stack =~= old(self)@.popped(2).stack);
        let ghost before = self.mem@;
        self.mem.insert(key, value);
        assert(memory_model(self.mem@) =~= memory_model(before).insert(key@, value@));
        Ok(Step::Next)
    }

    /// A store command of a slot: takes the top value off the stack and
    /// keeps it in the slot.
    pub fn save(&mut self, slot: Slot, op: &str) -> (r: Result<Step, Fault>)
        ensures
            (final(self)@, signal_of(r)) == old(self)@.after_save(slot, op@),
    {
        match self.check_stack_error(1, op) {
            Err(e) => {
                return Err(e);
            },
            Ok(_) => {},
        }
        let value = self.pop_stack_string();
        match slot {
            Slot::A => {
                self.mem_a = value;
            },
            Slot::B => {
                self.mem_b = value;
            },
            Slot::C => {
                self.mem_c = value;
            },
        }
        Ok(Step::Next)
    }

    /// A recall command of a slot: pushes the value that the slot holds.
    pub fn recall(&mut self, slot: Slot, op: &str) -> (r: Result<Step, Fault>)
        ensures
            (final(self)@, signal_of(r)) == old(self)@.after_recall(slot),
    {
        let value = match slot {
            Slot::A => self.mem_a.clone(),
            Slot::B => self.mem_b.clone(),
            Slot::C => self.mem_c.clone(),
        };
        self.push(value);
        Ok(Step::Next)
    }

    /// Takes the top value off the stack and keeps it in slot `a`.
    pub fn c_store_a(&mut self, op: &str) -> (r: Result<Step, Fault>)
        ensures
            (final(self)@, signal_of(r)) == old(self)@.after_save(Slot::A, op@),
    {
        self.save(Slot::A, op)
    }

    /// Pushes the value that slot `a` holds.
    pub fn c_push_a(&mut self, op: &str) -> (r: Result<Step, Fault>)
        ensures
            (final(self)@, signal_of(r)) == old(self)@.after_recall(Slot::A),
    {
        self.recall(Slot::A, op)
    }

    /// Takes the top value off the stack and keeps it in slot `b`.
    pub fn c_store_b(&mut self, op: &str) -> (r: Result<Step, Fault>)
        ensures
            (final(self)@, signal_of(r)) == old(self)@.after_save(Slot::B, op@),
    {
        self.save(Slot::B, op)
    }

    /// Pushes the value that slot `b` holds.
    pub fn c_push_b(&mut self, op: &str) -> (r: Result<Step, Fault>)
        ensures
            (final(self)@, signal_of(r)) == old(self)@.after_recall(Slot::B),
    {
        self.recall(Slot::B, op)
    }

    /// Takes the top value off the stack and keeps it in slot `c`.
    pub fn c_store_c(&mut self, op: &str) -> (r: Result<Step, Fault>)
        ensures
            (final(self)@, signal_of(r)) == old(self)@.after_save(Slot::C, op@),
    {
        self.save(Slot::C, op)
    }

    /// Pushes the value that slot `c` holds.
    pub fn c_push_c(&mut self, op: &str) -> (r: Result<Step, Fault>)
        ensures
            (final(self)@, signal_of(r)) == old(self)@.after_recall(Slot::C),
    {
        self.recall(Slot::C, op)
    }
}

} // verus!
