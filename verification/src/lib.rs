//! A small library for command-line programs that want to report a fatal
//! diagnostic and end the process.
//!
//! Nothing in this crate performs I/O or ends the process itself. Every
//! entry point computes a [`Termination`] plan: the exact text owed to the
//! standard error stream (if any) and the exit status to end with. A thin
//! unverified shell around the crate carries each plan out; the plan itself,
//! including the overload dispatch and the message formatting, is verified.

mod fmt;
mod print_exit;
mod termination;
mod unwrap;

pub use fmt::decimal_digits;
pub use fmt::decimal_of;
pub use fmt::decimal_string;
pub use fmt::digit_char;
pub use fmt::format_spec;
pub use fmt::format_template;
pub use fmt::views_of;
pub use print_exit::lemma_message_code_order;
pub use print_exit::lemma_message_code_order_owned;
pub use print_exit::PrintExit;
pub use termination::message_plan;
pub use termination::silent_plan;
pub use termination::stderr_of;
pub use termination::terminate;
pub use termination::terminate_formatted;
pub use termination::terminate_formatted_with_code;
pub use termination::terminate_with_code;
pub use termination::terminate_with_code_and_message;
pub use termination::terminate_with_message;
pub use termination::terminate_with_message_and_code;
pub use termination::Plan;
pub use termination::Termination;
pub use termination::DEFAULT_EXIT_CODE;
pub use unwrap::Die;
