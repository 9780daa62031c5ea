//! Stack persistence: the stack written out as a YAML list of strings, and
//! read back from one. Reading and writing the file is the host's part.
use vstd::prelude::*;
use crate::fault::{Fault, FaultModel, Warning, WarningModel};
use crate::interp::Interpreter;
use crate::queue::texts;

verus! {

/// The error type of `serde_yaml`.
#[verifier::external_type_specification]
#[verifier::external_body]
pub struct ExYamlError(serde_yaml::Error);

/// The YAML text that `serde_yaml::to_string` writes for a list of strings,
/// or `None` where it gives an error.
pub uninterp spec fn yaml_of_stack(stack: Seq<Seq<char>>) -> Option<Seq<char>>;

/// The list of strings that `serde_yaml::from_str` reads from a YAML text,
/// or `None` where it gives an error.
pub uninterp spec fn stack_of_yaml(text: Seq<char>) -> Option<Seq<Seq<char>>>;

/// Calls `serde_yaml::to_string` on a list of strings. What it returns
/// depends on the strings alone, and goes by the name `yaml_of_stack`.
#[verifier::external_body]
fn stack_to_yaml(stack: &Vec<String>) -> (r: Result<String, serde_yaml::Error>)
    ensures
        match r {
            Ok(text) => yaml_of_stack(texts(stack@)) == Some(text@),
            Err(_) => yaml_of_stack(texts(stack@)) is None,
        },
{
    serde_yaml::to_string(stack)
}

/// Calls `serde_yaml::from_str` for a list of strings. What it returns
/// depends on the text alone, and goes by the name `stack_of_yaml`.
#[verifier::external_body]
fn yaml_to_stack(text: &str) -> (r: Result<Vec<String>, serde_yaml::Error>)
    ensures
        match r {
            Ok(stack) => stack_of_yaml(text@) == Some(texts(stack@)),
            Err(_) => stack_of_yaml(text@) is None,
        },
{
    serde_yaml::from_str::<Vec<String>>(text)
}

impl Interpreter {
    /// The stack as the YAML text of a snapshot.
    pub fn save_stack(&self) -> (r: Result<String, Fault>)
        ensures
            match yaml_of_stack(self@.stack) {
                Some(text) => r is Ok && r->Ok_0@ == text,
                None => r is Err && r->Err_0@ == FaultModel::SnapshotFailed,
            },
    {
        match stack_to_yaml(&self.stack) {
            Ok(text) => Ok(text),
            Err(_) => Err(Fault::SnapshotFailed),
        }
    }

    /// Puts a snapshot that was read in place of the stack; where none
    /// could be read, the stack stays and a warning is given. Returns
    /// whether the stack was replaced.
    pub fn restore_stack(&mut self, snapshot: Option<Vec<String>>) -> (r: bool)
        ensures
            match snapshot {
                Some(stack) => r && final(self)@ == old(self)@.with_stack(texts(stack@)),
                None => !r && final(self)@ == old(self)@.warned(WarningModel::CorruptSnapshot),
            },
    {
        match snapshot {
            Some(stack) => {
                self.stack = stack;
                true
            },
            None => {
                self.warn(Warning::CorruptSnapshot);
                false
            },
        }
    }

    /// Reads the YAML text of a snapshot and puts it in place of the stack;
    /// where the text is no list of strings, the stack stays and a warning
    /// is given. Returns whether the stack was replaced.
    pub fn load_stack(&mut self, text: &str) -> (r: bool)
        ensures
            match stack_of_yaml(text@) {
                Some(stack) => r && final(self)@ == old(self)@.with_stack(stack),
                None => !r && final(self)@ == old(self)@.warned(WarningModel::CorruptSnapshot),
            },
    {
        let snapshot = match yaml_to_stack(text) {
            Ok(stack) => Some(stack),
            Err(_) => None,
        };
        self.restore_stack(snapshot)
    }
}

} // verus!
