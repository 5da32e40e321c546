//! The unwrap-or-die capability: take the payload out of a fallible or
//! optional value, or resolve a termination plan that prints a caller-given
//! message and ends the process.

use vstd::prelude::*;

use crate::print_exit::PrintExit;
use crate::termination::message_plan;
use crate::termination::Termination;
use crate::termination::DEFAULT_EXIT_CODE;

verus! {

/// A value that either holds a payload or calls for termination. `die` and
/// `die_code` yield the payload when there is one; otherwise they yield the
/// plan that prints the caller's message — the underlying failure reason is
/// discarded — and ends the process.
pub trait Die<T>: Sized {
    /// The payload this value holds, if any.
    spec fn payload(self) -> Option<T>;

    /// The payload, or the plan that prints `msg` and ends the process with
    /// the default exit status.
    fn die(self, msg: &str) -> (r: Result<T, Termination>)
        ensures
            match self.payload() {
                Some(v) => r == Ok::<T, Termination>(v),
                None => r matches Err(t) && t@ == message_plan(
                    msg@,
                    DEFAULT_EXIT_CODE as int,
                ),
            },
    ;

    /// The payload, or the plan that prints `msg` and ends the process with
    /// `exit_code`.
    fn die_code(self, msg: &str, exit_code: i32) -> (r: Result<T, Termination>)
        ensures
            match self.payload() {
                Some(v) => r == Ok::<T, Termination>(v),
                None => r matches Err(t) && t@ == message_plan(msg@, exit_code as int),
            },
    ;
}

impl<T, E> Die<T> for Result<T, E> {
    open spec fn payload(self) -> Option<T> {
        match self {
            Ok(v) => Some(v),
            Err(_) => None,
        }
    }

    fn die(self, msg: &str) -> (r: Result<T, Termination>) {
        self.die_code(msg, DEFAULT_EXIT_CODE)
    }

    fn die_code(self, msg: &str, exit_code: i32) -> (r: Result<T, Termination>) {
        match self {
            Ok(v) => Ok(v),
            Err(_) => Err(PrintExit::process(&(exit_code, msg))),
        }
    }
}

impl<T> Die<T> for Option<T> {
    open spec fn payload(self) -> Option<T> {
        self
    }

    fn die(self, msg: &str) -> (r: Result<T, Termination>) {
        self.die_code(msg, DEFAULT_EXIT_CODE)
    }

    fn die_code(self, msg: &str, exit_code: i32) -> (r: Result<T, Termination>) {
        match self {
            Some(v) => Ok(v),
            None => Err(PrintExit::process(&(exit_code, msg))),
        }
    }
}

} // verus!
