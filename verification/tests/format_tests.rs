use die::decimal_string;
use die::format_template;

#[test]
fn empty_template_formats_to_nothing() {
    let args: Vec<String> = Vec::new();
    assert_eq!(format_template("", &args), "");
}

#[test]
fn template_without_placeholders_is_kept() {
    let args: Vec<String> = Vec::new();
    assert_eq!(format_template("plain text", &args), "plain text");
}

#[test]
fn placeholders_take_arguments_in_order() {
    let args: Vec<String> = vec![String::from("first"), String::from("second")];
    assert_eq!(format_template("{} then {}", &args), "first then second");
}

#[test]
fn doubled_braces_are_literal() {
    let args: Vec<String> = vec![String::from("v")];
    assert_eq!(format_template("{{{}}}", &args), "{v}");
    let none: Vec<String> = Vec::new();
    assert_eq!(format_template("{{}}", &none), "{}");
}

#[test]
fn placeholder_without_argument_is_kept_literally() {
    let args: Vec<String> = vec![String::from("only")];
    assert_eq!(format_template("{} and {}", &args), "only and {}");
}

#[test]
fn unused_arguments_are_ignored() {
    let args: Vec<String> = vec![String::from("a"), String::from("b")];
    assert_eq!(format_template("just {}", &args), "just a");
}

#[test]
fn decimal_renders_zero_and_positives() {
    assert_eq!(decimal_string(0), "0");
    assert_eq!(decimal_string(1), "1");
    assert_eq!(decimal_string(10), "10");
    assert_eq!(decimal_string(255), "255");
    assert_eq!(decimal_string(i32::MAX), "2147483647");
}

#[test]
fn decimal_renders_negatives() {
    assert_eq!(decimal_string(-1), "-1");
    assert_eq!(decimal_string(-255), "-255");
    assert_eq!(decimal_string(i32::MIN), "-2147483648");
}
