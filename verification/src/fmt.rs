//! Message formatting: substitution of `{}` placeholders in a template, and
//! decimal rendering of integers, so that a caller can build a diagnostic
//! from a template and arguments before terminating.

use vstd::prelude::*;

use crate::termination::push_char;

verus! {

/// What formatting a template against a list of arguments yields: each `{}`
/// is replaced by the next unused argument, `{{` and `}}` stand for literal
/// braces, and every other character is kept. A `{}` with no argument left
/// is kept literally.
pub open spec fn format_spec(template: Seq<char>, args: Seq<Seq<char>>) -> Seq<char>
    decreases template.len(),
{
    if template.len() == 0 {
        Seq::empty()
    } else if template.len() >= 2 && template[0] == '{' && template[1] == '}' && args.len() > 0 {
        args[0] + format_spec(template.skip(2), args.skip(1))
    } else if template.len() >= 2 && template[0] == '{' && template[1] == '{' {
        seq!['{'] + format_spec(template.skip(2), args)
    } else if template.len() >= 2 && template[0] == '}' && template[1] == '}' {
        seq!['}'] + format_spec(template.skip(2), args)
    } else {
        seq![template[0]] + format_spec(template.skip(1), args)
    }
}

/// The character sequences of a list of argument strings.
pub open spec fn views_of(args: Seq<String>) -> Seq<Seq<char>> {
    args.map_values(|a: String| a@)
}

/// Appends to `out` the formatted tail of `template` from character `i` on,
/// drawing arguments from `args` starting at `j`.
fn format_tail(template: &str, n: usize, i: usize, args: &Vec<String>, j: usize, out: &mut String)
    requires
        n == template@.len(),
        i <= n,
        j <= args@.len(),
    ensures
        final(out)@ == old(out)@ + format_spec(
            template@.skip(i as int),
            views_of(args@).skip(j as int),
        ),
    decreases n - i,
{
    let ghost rest = template@.skip(i as int);
    let ghost vargs = views_of(args@).skip(j as int);
    if i == n {
        assert(rest.len() == 0);
        assert(final(out)@ =~= old(out)@ + format_spec(rest, vargs));
        return ;
    }
    let c = template.get_char(i);
    assert(rest[0] == template@[i as int]);
    if c == '{' && i + 1 < n && template.get_char(i + 1) == '}' && j < args.len() {
        assert(rest[1] == template@[i + 1]);
        assert(vargs[0] == args@[j as int]@);
        let arg: &String = &args[j];
        out.append(arg.as_str());
        format_tail(template, n, i + 2, args, j + 1, out);
        assert(rest.skip(2) =~= template@.skip(i + 2));
        assert(vargs.skip(1) =~= views_of(args@).skip(j + 1));
        assert(final(out)@ =~= old(out)@ + format_spec(rest, vargs));
    } else if c == '{' && i + 1 < n && template.get_char(i + 1) == '{' {
        assert(rest[1] == template@[i + 1]);
        push_char(out, '{');
        format_tail(template, n, i + 2, args, j, out);
        assert(rest.skip(2) =~= template@.skip(i + 2));
        assert(final(out)@ =~= old(out)@ + format_spec(rest, vargs));
    } else if c == '}' && i + 1 < n && template.get_char(i + 1) == '}' {
        assert(rest[1] == template@[i + 1]);
        push_char(out, '}');
        format_tail(template, n, i + 2, args, j, out);
        assert(rest.skip(2) =~= template@.skip(i + 2));
        assert(final(out)@ =~= old(out)@ + format_spec(rest, vargs));
    } else {
        assert(rest.len() >= 2 ==> rest[1] == template@[i + 1]);
        push_char(out, c);
        format_tail(template, n, i + 1, args, j, out);
        assert(rest.skip(1) =~= template@.skip(i + 1));
        assert(final(out)@ =~= old(out)@ + format_spec(rest, vargs));
    }
}

/// Formats `template` against `args`: each `{}` is replaced by the next
/// unused argument, `{{` and `}}` yield literal braces, everything else is
/// kept as written.
pub fn format_template(template: &str, args: &Vec<String>) -> (out: String)
    ensures
        out@ == format_spec(template@, views_of(args@)),
{
    let n = template.unicode_len();
    let mut out = String::new();
    format_tail(template, n, 0, args, 0, &mut out);
    proof {
        assert(template@.skip(0) =~= template@);
        assert(views_of(args@).skip(0) =~= views_of(args@));
        assert(out@ =~= format_spec(template@, views_of(args@)));
    }
    out
}

/// The character for one decimal digit.
pub open spec fn digit_char(d: nat) -> char {
    if d == 0 {
        '0'
    } else if d == 1 {
        '1'
    } else if d == 2 {
        '2'
    } else if d == 3 {
        '3'
    } else if d == 4 {
        '4'
    } else if d == 5 {
        '5'
    } else if d == 6 {
        '6'
    } else if d == 7 {
        '7'
    } else if d == 8 {
        '8'
    } else {
        '9'
    }
}

/// The decimal digits of a natural number, most significant first, with no
/// leading zero except for the number zero itself.
pub open spec fn decimal_digits(n: nat) -> Seq<char>
    decreases n,
{
    if n < 10 {
        seq![digit_char(n)]
    } else {
        decimal_digits(n / 10) + seq![digit_char(n % 10)]
    }
}

/// The decimal rendering of an integer: a leading minus sign for negative
/// numbers, then the digits of its magnitude.
pub open spec fn decimal_of(n: int) -> Seq<char> {
    if n < 0 {
        seq!['-'] + decimal_digits((-n) as nat)
    } else {
        decimal_digits(n as nat)
    }
}

/// The character for one decimal digit, as executable code.
fn digit_to_char(d: u64) -> (c: char)
    requires
        d < 10,
    ensures
        c == digit_char(d as nat),
{
    if d == 0 {
        '0'
    } else if d == 1 {
        '1'
    } else if d == 2 {
        '2'
    } else if d == 3 {
        '3'
    } else if d == 4 {
        '4'
    } else if d == 5 {
        '5'
    } else if d == 6 {
        '6'
    } else if d == 7 {
        '7'
    } else if d == 8 {
        '8'
    } else {
        '9'
    }
}

/// Appends the decimal digits of `n` to `out`.
fn push_decimal(n: u64, out: &mut String)
    ensures
        final(out)@ == old(out)@ + decimal_digits(n as nat),
    decreases n,
{
    if n >= 10 {
        push_decimal(n / 10, out);
    }
    push_char(out, digit_to_char(n % 10));
    assert(final(out)@ =~= old(out)@ + decimal_digits(n as nat));
}

/// Renders an integer in decimal, so that numeric arguments can be handed
/// to [`format_template`].
pub fn decimal_string(n: i32) -> (out: String)
    ensures
        out@ == decimal_of(n as int),
{
    let mut out = String::new();
    if n < 0 {
        push_char(&mut out, '-');
        let magnitude: u64 = (-(n as i64)) as u64;
        assert(magnitude as nat == (-(n as int)) as nat);
        push_decimal(magnitude, &mut out);
    } else {
        push_decimal(n as u64, &mut out);
    }
    assert(out@ =~= decimal_of(n as int));
    out
}

} // verus!
