//! A postfix interpreter whose control flow is the rewriting of its own
//! queue of pending tokens. `machine` says in mathematics what every command
//! makes of a state; the executable interpreter in `interp`, `stack_ops`,
//! `flow`, `integer`, `colour` and `dispatch` is proved to do exactly that;
//! `laws` states what follows for every program. Commands on real numbers
//! and commands that print are left to a host, to which a run hands over.
pub mod colour;
pub mod commands;
pub mod control;
pub mod dispatch;
pub mod fault;
pub mod flow;
pub mod function;
pub mod integer;
pub mod interp;
pub mod laws;
pub mod level;
pub mod machine;
pub mod numeral;
pub mod queue;
pub mod snapshot;
pub mod stack_ops;
pub mod table;
pub mod theme;
