use die::terminate;
use die::terminate_formatted;
use die::terminate_formatted_with_code;
use die::terminate_with_code;
use die::terminate_with_code_and_message;
use die::terminate_with_message;
use die::terminate_with_message_and_code;
use die::PrintExit;

#[test]
fn bare_terminator_is_silent_with_status_one() {
    let t = terminate();
    assert!(t.message.is_none());
    assert_eq!(t.code, 1);
    assert_eq!(t.stderr_text(), "");
}

#[test]
fn integer_alone_is_silent_with_that_status() {
    let t = terminate_with_code(42);
    assert!(t.message.is_none());
    assert_eq!(t.code, 42);
    assert_eq!(t.stderr_text(), "");
}

#[test]
fn message_alone_prints_it_with_status_one() {
    let t = terminate_with_message("argument to -e must be numeric");
    assert_eq!(t.message.as_deref(), Some("argument to -e must be numeric"));
    assert_eq!(t.code, 1);
    assert_eq!(t.stderr_text(), "argument to -e must be numeric\n");
}

#[test]
fn message_and_code_in_either_order_give_one_plan() {
    let a = terminate_with_message_and_code("bad input", 7);
    let b = terminate_with_code_and_message(7, "bad input");
    assert_eq!(a.message.as_deref(), Some("bad input"));
    assert_eq!(b.message.as_deref(), Some("bad input"));
    assert_eq!(a.code, 7);
    assert_eq!(b.code, 7);
    assert_eq!(a.stderr_text(), "bad input\n");
    assert_eq!(b.stderr_text(), "bad input\n");
}

#[test]
fn process_on_integer_is_silent() {
    let t = 3i32.process();
    assert!(t.message.is_none());
    assert_eq!(t.code, 3);
}

#[test]
fn process_on_str_prints_with_status_one() {
    let t = "strange error".process();
    assert_eq!(t.message.as_deref(), Some("strange error"));
    assert_eq!(t.code, 1);
}

#[test]
fn process_on_string_prints_with_status_one() {
    let t = String::from("strange error").process();
    assert_eq!(t.message.as_deref(), Some("strange error"));
    assert_eq!(t.code, 1);
}

#[test]
fn process_on_pairs_takes_code_from_either_side() {
    let a = (2i32, "usage").process();
    let b = ("usage", 2i32).process();
    assert_eq!(a.message.as_deref(), Some("usage"));
    assert_eq!(b.message.as_deref(), Some("usage"));
    assert_eq!(a.code, 2);
    assert_eq!(b.code, 2);
    let c = (5i32, String::from("gone")).process();
    let d = (String::from("gone"), 5i32).process();
    assert_eq!(c.message.as_deref(), Some("gone"));
    assert_eq!(d.message.as_deref(), Some("gone"));
    assert_eq!(c.code, 5);
    assert_eq!(d.code, 5);
}

#[test]
fn formatted_terminator_substitutes_before_exiting() {
    let args: Vec<String> = vec![String::from("-e"), die::decimal_string(1)];
    let t = terminate_formatted_with_code("argument {} must be {}", &args, 4);
    assert_eq!(t.message.as_deref(), Some("argument -e must be 1"));
    assert_eq!(t.code, 4);
    assert_eq!(t.stderr_text(), "argument -e must be 1\n");
}

#[test]
fn formatted_terminator_defaults_to_status_one() {
    let args: Vec<String> = vec![String::from("x")];
    let t = terminate_formatted("no such file: {}", &args);
    assert_eq!(t.message.as_deref(), Some("no such file: x"));
    assert_eq!(t.code, 1);
}
