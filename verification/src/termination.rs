//! The termination plan: what a terminating call owes the standard error
//! stream, and the exit status it ends the process with.

use vstd::prelude::*;

use crate::fmt::format_spec;
use crate::fmt::format_template;
use crate::fmt::views_of;

verus! {

/// The exit status used whenever a caller supplies none.
pub const DEFAULT_EXIT_CODE: i32 = 1;

/// A termination plan, as carried out by the process shell: print the
/// message (if any) to standard error with one trailing newline, then end
/// the process with the given exit status. Building a plan has no side
/// effect; the shell performs it.
pub struct Termination {
    /// The diagnostic to print, or `None` to print nothing at all.
    pub message: Option<String>,
    /// The exit status the process ends with.
    pub code: i32,
}

/// The mathematical model of a [`Termination`]: the message as a sequence
/// of characters, and the exit status as an unbounded integer.
pub struct Plan {
    pub message: Option<Seq<char>>,
    pub code: int,
}

impl View for Termination {
    type V = Plan;

    open spec fn view(&self) -> Plan {
        Plan {
            message: match self.message {
                Some(m) => Some(m@),
                None => None,
            },
            code: self.code as int,
        }
    }
}

/// The plan that prints nothing and exits with `code`.
pub open spec fn silent_plan(code: int) -> Plan {
    Plan { message: None, code }
}

/// The plan that prints `message` (plus a newline) and exits with `code`.
pub open spec fn message_plan(message: Seq<char>, code: int) -> Plan {
    Plan { message: Some(message), code }
}

/// Exactly what a plan writes to standard error: the message followed by
/// one newline, or nothing when there is no message.
pub open spec fn stderr_of(plan: Plan) -> Seq<char> {
    match plan.message {
        Some(m) => m + seq!['\n'],
        None => Seq::empty(),
    }
}

/// Relies on `String::push`: appends the given character to the end of the
/// string and changes nothing else.
#[verifier::external_body]
pub(crate) fn push_char(s: &mut String, c: char)
    ensures
        final(s)@ == old(s)@ + seq![c],
{
    s.push(c);
}

impl Termination {
    /// The exact text this plan writes to standard error, possibly empty.
    pub fn stderr_text(&self) -> (out: String)
        ensures
            out@ == stderr_of(self@),
    {
        match &self.message {
            Some(m) => {
                let mut out = m.clone();
                push_char(&mut out, '\n');
                out
            },
            None => String::new(),
        }
    }
}

/// The bare terminator: print nothing, exit with the default status.
pub fn terminate() -> (t: Termination)
    ensures
        t@ == silent_plan(DEFAULT_EXIT_CODE as int),
{
    Termination { message: None, code: DEFAULT_EXIT_CODE }
}

/// The terminator given only an integer: print nothing, exit with it.
pub fn terminate_with_code(code: i32) -> (t: Termination)
    ensures
        t@ == silent_plan(code as int),
{
    Termination { message: None, code }
}

/// The terminator given only a message: print it, exit with the default
/// status.
pub fn terminate_with_message(message: &str) -> (t: Termination)
    ensures
        t@ == message_plan(message@, DEFAULT_EXIT_CODE as int),
{
    Termination { message: Some(message.to_owned()), code: DEFAULT_EXIT_CODE }
}

/// The terminator given a message and then an exit status: print the
/// message, exit with the status.
pub fn terminate_with_message_and_code(message: &str, code: i32) -> (t: Termination)
    ensures
        t@ == message_plan(message@, code as int),
{
    Termination { message: Some(message.to_owned()), code }
}

/// The terminator given an exit status and then a message: the same plan as
/// the message-first form.
pub fn terminate_with_code_and_message(code: i32, message: &str) -> (t: Termination)
    ensures
        t@ == message_plan(message@, code as int),
{
    Termination { message: Some(message.to_owned()), code }
}

/// The terminator given a format template and arguments but no exit status:
/// print the formatted message, exit with the default status. The arguments
/// only ever shape the message; they never become the exit status.
pub fn terminate_formatted(template: &str, args: &Vec<String>) -> (t: Termination)
    ensures
        t@ == message_plan(
            format_spec(template@, views_of(args@)),
            DEFAULT_EXIT_CODE as int,
        ),
{
    Termination { message: Some(format_template(template, args)), code: DEFAULT_EXIT_CODE }
}

/// The terminator given a format template, arguments and an exit status:
/// print the formatted message, exit with the status. Substitution happens
/// before the exit status is resolved, and the arguments never become the
/// exit status.
pub fn terminate_formatted_with_code(template: &str, args: &Vec<String>, code: i32) -> (t:
    Termination)
    ensures
        t@ == message_plan(format_spec(template@, views_of(args@)), code as int),
{
    Termination { message: Some(format_template(template, args)), code }
}

} // verus!
