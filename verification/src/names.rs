//! The names under which bodies are shown: the word `Planet` and the body's
//! number in decimal.

use vstd::prelude::*;

verus! {

/// The character of the decimal digit `d`.
pub open spec fn digit_char(d: nat) -> char {
    if d == 0 {
        '0'
    } else if d == 1 {
        '1'
    } else if d == 2 {
        '2'
    } else if d == 3 {
        '3'
    } else if d == 4 {
        '4'
    } else if d == 5 {
        '5'
    } else if d == 6 {
        '6'
    } else if d == 7 {
        '7'
    } else if d == 8 {
        '8'
    } else {
        '9'
    }
}

/// The digit that the character `c` shows; 0 for any other character.
pub open spec fn digit_value(c: char) -> nat {
    if c == '1' {
        1
    } else if c == '2' {
        2
    } else if c == '3' {
        3
    } else if c == '4' {
        4
    } else if c == '5' {
        5
    } else if c == '6' {
        6
    } else if c == '7' {
        7
    } else if c == '8' {
        8
    } else if c == '9' {
        9
    } else {
        0
    }
}

/// The decimal digits of `n`, most significant first, without leading zeros.
pub open spec fn decimal_digits(n: nat) -> Seq<char>
    decreases n,
{
    if n < 10 {
        seq![digit_char(n)]
    } else {
        decimal_digits(n / 10).push(digit_char(n % 10))
    }
}

/// The number that a sequence of decimal digits shows.
pub open spec fn digits_value(digits: Seq<char>) -> nat
    decreases digits.len(),
{
    if digits.len() == 0 {
        0
    } else {
        digits_value(digits.drop_last()) * 10 + digit_value(digits.last())
    }
}

/// The label drawn on body `id`: its number.
pub open spec fn label_text(id: u32) -> Seq<char> {
    decimal_digits(id as nat)
}

/// The name of body `id`.
pub open spec fn name_text(id: u32) -> Seq<char> {
    "Planet "@ + decimal_digits(id as nat)
}

/// Reading the decimal digits of a number gives the number back.
pub proof fn digits_show_their_number(n: nat)
    ensures
        digits_value(decimal_digits(n)) == n,
        decimal_digits(n).len() >= 1,
    decreases n,
{
    if n < 10 {
        let digits = decimal_digits(n);
        assert(digits.drop_last() =~= Seq::<char>::empty());
        assert(digits_value(digits.drop_last()) == 0);
        assert(digits.last() == digit_char(n));
    } else {
        digits_show_their_number(n / 10);
        let digits = decimal_digits(n);
        assert(digits.drop_last() =~= decimal_digits(n / 10));
        assert(digits.last() == digit_char(n % 10));
    }
}

/// Distinct bodies carry distinct labels and distinct names.
pub proof fn names_are_distinct(a: u32, b: u32)
    requires
        a != b,
    ensures
        label_text(a) != label_text(b),
        name_text(a) != name_text(b),
{
    digits_show_their_number(a as nat);
    digits_show_their_number(b as nat);
    let prefix = "Planet "@;
    let first = decimal_digits(a as nat);
    let second = decimal_digits(b as nat);
    assert((prefix + first).subrange(prefix.len() as int, (prefix + first).len() as int)
        =~= first);
    assert((prefix + second).subrange(prefix.len() as int, (prefix + second).len() as int)
        =~= second);
}

/// `String::push` of the standard library: the text afterwards is the text
/// before with `c` appended at its end.
#[verifier::external_body]
fn push_char(text: &mut String, c: char)
    ensures
        final(text)@ == old(text)@.push(c),
{
    text.push(c)
}

fn digit(d: u32) -> (c: char)
    requires
        d < 10,
    ensures
        c == digit_char(d as nat),
{
    if d == 0 {
        '0'
    } else if d == 1 {
        '1'
    } else if d == 2 {
        '2'
    } else if d == 3 {
        '3'
    } else if d == 4 {
        '4'
    } else if d == 5 {
        '5'
    } else if d == 6 {
        '6'
    } else if d == 7 {
        '7'
    } else if d == 8 {
        '8'
    } else {
        '9'
    }
}

fn push_decimal(text: &mut String, n: u32)
    ensures
        final(text)@ == old(text)@ + decimal_digits(n as nat),
    decreases n,
{
    if n >= 10 {
        push_decimal(text, n / 10);
    }
    push_char(text, digit(n % 10));
    assert(text@ =~= old(text)@ + decimal_digits(n as nat));
}

/// The label drawn on body `id`.
pub fn planet_label(id: u32) -> (r: String)
    ensures
        r@ == label_text(id),
{
    let mut text = String::new();
    push_decimal(&mut text, id);
    assert(text@ =~= label_text(id));
    text
}

/// The name of body `id`.
pub fn planet_name(id: u32) -> (r: String)
    ensures
        r@ == name_text(id),
{
    let mut text = "Planet ".to_owned();
    push_decimal(&mut text, id);
    text
}

} // verus!
