//! The `PrintExit` capability: every value shape the terminator accepts —
//! an exit status, a message, or the two in either order — resolves to one
//! termination plan.

use vstd::prelude::*;

use crate::termination::message_plan;
use crate::termination::silent_plan;
use crate::termination::stderr_of;
use crate::termination::Plan;
use crate::termination::Termination;
use crate::termination::DEFAULT_EXIT_CODE;

verus! {

/// A value that resolves to a termination plan. The shape of the value
/// decides the plan: an integer is an exit status alone, a string is a
/// message printed before the default status, and a pair supplies both, in
/// either order.
pub trait PrintExit {
    /// The plan this value resolves to.
    spec fn plan(&self) -> Plan;

    /// Resolves this value into its termination plan.
    fn process(&self) -> (t: Termination)
        ensures
            t@ == self.plan(),
    ;
}

impl PrintExit for i32 {
    open spec fn plan(&self) -> Plan {
        silent_plan(*self as int)
    }

    fn process(&self) -> (t: Termination) {
        Termination { message: None, code: *self }
    }
}

impl PrintExit for &str {
    open spec fn plan(&self) -> Plan {
        message_plan((*self)@, DEFAULT_EXIT_CODE as int)
    }

    fn process(&self) -> (t: Termination) {
        Termination { message: Some((*self).to_owned()), code: DEFAULT_EXIT_CODE }
    }
}

impl PrintExit for String {
    open spec fn plan(&self) -> Plan {
        message_plan(self@, DEFAULT_EXIT_CODE as int)
    }

    fn process(&self) -> (t: Termination) {
        Termination { message: Some(self.clone()), code: DEFAULT_EXIT_CODE }
    }
}

impl PrintExit for (i32, &str) {
    open spec fn plan(&self) -> Plan {
        message_plan(self.1@, self.0 as int)
    }

    fn process(&self) -> (t: Termination) {
        Termination { message: Some(self.1.to_owned()), code: self.0 }
    }
}

impl PrintExit for (i32, String) {
    open spec fn plan(&self) -> Plan {
        message_plan(self.1@, self.0 as int)
    }

    fn process(&self) -> (t: Termination) {
        Termination { message: Some(self.1.clone()), code: self.0 }
    }
}

impl PrintExit for (&str, i32) {
    open spec fn plan(&self) -> Plan {
        message_plan(self.0@, self.1 as int)
    }

    fn process(&self) -> (t: Termination) {
        Termination { message: Some(self.0.to_owned()), code: self.1 }
    }
}

impl PrintExit for (String, i32) {
    open spec fn plan(&self) -> Plan {
        message_plan(self.0@, self.1 as int)
    }

    fn process(&self) -> (t: Termination) {
        Termination { message: Some(self.0.clone()), code: self.1 }
    }
}

/// Law: a message and an exit status resolve to the same plan whether the
/// status or the message comes first, and that plan writes exactly the
/// message followed by one newline and ends with exactly that status.
pub proof fn lemma_message_code_order(message: &str, code: i32)
    ensures
        (code, message).plan() == (message, code).plan(),
        stderr_of((message, code).plan()) == message@ + seq!['\n'],
        (message, code).plan().code == code as int,
{
}

/// Law: the same, for owned message strings.
pub proof fn lemma_message_code_order_owned(message: String, code: i32)
    ensures
        (code, message).plan() == (message, code).plan(),
        stderr_of((message, code).plan()) == message@ + seq!['\n'],
        (message, code).plan().code == code as int,
{
}

} // verus!
