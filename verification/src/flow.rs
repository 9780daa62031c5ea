//! The commands that rewrite the operation queue: definitions, conditionals,
//! comments and the combinators.
use vstd::prelude::*;
use vstd::string::*;
use crate::control::{
    apply_keeping, apply_once, capture_function, capture_lambda, choose_branch, repeat_tokens,
    skip_comment,
};
use crate::fault::Fault;
use crate::function::{forget, is_user_function, models, Function};
use crate::interp::{signal_of, Interpreter, Step};
use crate::queue::{lemma_texts_add, texts, Text};

verus! {

impl Interpreter {
    /// `(`: defines the named function that the queue spells.
    pub fn c_load_function(&mut self, op: &str) -> (r: Result<Step, Fault>)
        ensures
            (final(self)@, signal_of(r)) == old(self)@.after_function(),
    {
        match capture_function(&mut self.ops) {
            Err(e) => Err(e),
            Ok(f) => {
                self.fns.push(f);
                assert(models(self.fns@) =~= models(old(self).fns@).push(f@));
                Ok(Step::Next)
            },
        }
    }

    /// `[`: defines the anonymous function that the queue spells, in place
    /// of any earlier one.
    pub fn c_load_lambda(&mut self, op: &str) -> (r: Result<Step, Fault>)
        ensures
            (final(self)@, signal_of(r)) == old(self)@.after_lambda(),
    {
        match capture_lambda(&mut self.ops) {
            Err(e) => Err(e),
            Ok(body) => {
                forget(&mut self.fns, "_");
                let ghost kept = models(self.fns@);
                let f = Function { name: String::from_str("_"), fops: body };
                self.fns.push(f);
                assert(models(self.fns@) =~= kept.push(f@));
                Ok(Step::Next)
            },
        }
    }

    /// `ifeq`: takes two values off the stack for the host to compare.
    pub fn c_ifeq(&mut self, op: &str) -> (r: Result<Step, Fault>)
        ensures
            (final(self)@, signal_of(r)) == old(self)@.after_ifeq(op@),
    {
        match self.check_stack_error(2, op) {
            Err(e) => {
                return Err(e);
            },
            Ok(_) => {},
        }
        let b = self.pop_stack_string();
        let a = self.pop_stack_string();
        assert(self@.stack =~= old(self)@.popped(2).stack);
        Ok(Step::Compare { a, b })
    }

    /// The answer to `Step::Compare`: replaces the conditional at the front
    /// of the queue by the branch that `equal` selects.
    pub fn branch(&mut self, equal: bool) -> (r: Result<Step, Fault>)
        ensures
            (final(self)@, signal_of(r)) == old(self)@.after_branch(equal),
    {
        match choose_branch(&mut self.ops, equal) {
            Err(e) => Err(e),
            Ok(_) => Ok(Step::Next),
        }
    }

    /// `{`: skips the comment at the front of the queue.
    pub fn c_comment(&mut self, op: &str) -> (r: Result<Step, Fault>)
        ensures
            (final(self)@, signal_of(r)) == old(self)@.after_comment(),
    {
        match skip_comment(&mut self.ops) {
            Err(e) => Err(e),
            Ok(_) => Ok(Step::Next),
        }
    }

    /// Guards a combinator: at least `needed` values and an anonymous
    /// function.
    pub fn check_combinator(&self, needed: usize, op: &str) -> (r: Result<(), Fault>)
        ensures
            match r {
                Ok(_) => self@.stack.len() >= needed && self@.has_lambda(),
                Err(e) => (self@, signal_of(Err(e))) == self@.after_combinator(
                    op@,
                    needed as nat,
                    Seq::empty(),
                ),
            },
    {
        match self.check_stack_error(needed, op) {
            Err(e) => {
                return Err(e);
            },
            Ok(_) => {},
        }
        match is_user_function(&self.fns, "_") {
            None => Err(Fault::NoLambda { command: String::from_str(op) }),
            Some(_) => Ok(()),
        }
    }

    /// `map`: puts one application of the anonymous function in front of the
    /// queue for each value that the stack holds now.
    pub fn c_map(&mut self, op: &str) -> (r: Result<Step, Fault>)
        ensures
            (final(self)@, signal_of(r)) == old(self)@.after_map(op@),
    {
        match self.check_combinator(1, op) {
            Err(e) => {
                return Err(e);
            },
            Ok(_) => {},
        }
        let once: Vec<String> = vec![String::from_str("rot"), String::from_str("_")];
        assert(texts(once@) =~= apply_once());
        let tokens = repeat_tokens(&once, self.stack.len());
        self.inject(tokens);
        Ok(Step::Next)
    }

    /// `fold`: puts one application of the anonymous function in front of
    /// the queue for each value but one.
    pub fn c_fold(&mut self, op: &str) -> (r: Result<Step, Fault>)
        ensures
            (final(self)@, signal_of(r)) == old(self)@.after_fold(op@),
    {
        match self.check_combinator(3, op) {
            Err(e) => {
                return Err(e);
            },
            Ok(_) => {},
        }
        let once: Vec<String> = vec![String::from_str("rot"), String::from_str("_")];
        assert(texts(once@) =~= apply_once());
        let tokens = repeat_tokens(&once, self.stack.len() - 1);
        self.inject(tokens);
        Ok(Step::Next)
    }

    /// `scan`: as `fold`, with each running result kept on the stack.
    pub fn c_scan(&mut self, op: &str) -> (r: Result<Step, Fault>)
        ensures
            (final(self)@, signal_of(r)) == old(self)@.after_scan(op@),
    {
        match self.check_combinator(1, op) {
            Err(e) => {
                return Err(e);
            },
            Ok(_) => {},
        }
        let keeping: Vec<String> = vec![
            String::from_str("dup"),
            String::from_str("rot"),
            String::from_str("_"),
        ];
        assert(texts(keeping@) =~= apply_keeping());
        let mut tokens: Vec<String> = vec![String::from_str("rot")];
        let ghost first = tokens@;
        assert(texts(first) =~= seq!["rot"@]);
        let mut more = repeat_tokens(&keeping, self.stack.len() - 1);
        let ghost rest = more@;
        tokens.append(&mut more);
        proof {
            lemma_texts_add(first, rest);
        }
        self.inject(tokens);
        Ok(Step::Next)
    }
}

} // verus!
