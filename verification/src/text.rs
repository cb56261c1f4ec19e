//! Text for diagnostics: how a value is written out.

use crate::value::Value;
use crate::value::ValueView;
use vstd::prelude::*;

verus! {

/// What `String::from_utf8_lossy` makes of a byte sequence.
pub uninterp spec fn lossy_text(bytes: Seq<u8>) -> Seq<char>;

/// `String::push`: appends one character.
#[verifier::external_body]
fn push_char(out: &mut String, c: char)
    ensures
        final(out)@ == old(out)@.push(c),
{
    out.push(c)
}

/// `String::from_utf8_lossy`, copied into an owned string: the bytes read as
/// UTF-8, with a replacement character for what is not.
#[verifier::external_body]
fn read_lossy(bytes: &Vec<u8>) -> (text: String)
    ensures
        text@ == lossy_text(bytes@),
{
    String::from_utf8_lossy(bytes).into_owned()
}

/// The character of a decimal digit.
pub open spec fn digit_char(d: int) -> char {
    ((48 + d) as u8) as char
}

/// A natural number in decimal, without leading zeros.
pub open spec fn decimal(n: nat) -> Seq<char>
    decreases n,
{
    if n < 10 {
        seq![digit_char(n as int)]
    } else {
        decimal(n / 10).push(digit_char((n % 10) as int))
    }
}

/// An integer in decimal, with a minus sign in front if it is negative.
pub open spec fn integer_text(i: int) -> Seq<char> {
    if i < 0 {
        seq!['-'] + decimal((-i) as nat)
    } else {
        decimal(i as nat)
    }
}

/// What a value is written as: `null`, the integer in decimal, the text
/// itself, or the blob read as UTF-8. A real is written as `decimal`, the
/// decimal form that travels with it: writing one takes floating point,
/// which this library leaves to its caller.
pub open spec fn value_text(v: ValueView, decimal: Seq<char>) -> Seq<char> {
    match v {
        ValueView::Null => seq!['n', 'u', 'l', 'l'],
        ValueView::Integer(i) => integer_text(i),
        ValueView::Real(_) => decimal,
        ValueView::Text(s) => s,
        ValueView::Blob(b) => lossy_text(b),
    }
}

fn digit(d: u8) -> (c: char)
    requires
        d < 10,
    ensures
        c == digit_char(d as int),
{
    (48 + d) as char
}

fn push_decimal(out: &mut String, n: u64)
    ensures
        final(out)@ == old(out)@ + decimal(n as nat),
    decreases n,
{
    if n >= 10 {
        push_decimal(out, n / 10);
    }
    push_char(out, digit((n % 10) as u8));
    proof {
        if n >= 10 {
            assert(old(out)@ + decimal(n as nat) =~= (old(out)@ + decimal((n / 10) as nat)).push(
                digit_char((n % 10) as int),
            ));
        } else {
            assert(old(out)@ + decimal(n as nat) =~= old(out)@.push(digit_char(n as int)));
        }
    }
}

/// Appends an integer in decimal.
pub fn push_integer(out: &mut String, i: i64)
    ensures
        final(out)@ == old(out)@ + integer_text(i as int),
{
    if i < 0 {
        let magnitude: u64 = (-(i + 1)) as u64 + 1;
        push_char(out, '-');
        push_decimal(out, magnitude);
        proof {
            assert(old(out)@ + integer_text(i as int) =~= old(out)@.push('-') + decimal(
                magnitude as nat,
            ));
        }
    } else {
        push_decimal(out, i as u64);
    }
}

/// Appends a value as text; for a real, the decimal form given with it.
pub fn push_value(out: &mut String, v: &Value, decimal: &str)
    ensures
        final(out)@ == old(out)@ + value_text(v@, decimal@),
{
    match v {
        Value::Null => {
            push_char(out, 'n');
            push_char(out, 'u');
            push_char(out, 'l');
            push_char(out, 'l');
            proof {
                assert(out@ =~= old(out)@ + value_text(v@, decimal@));
            }
        },
        Value::Integer(i) => push_integer(out, *i),
        Value::Real(_) => out.append(decimal),
        Value::Text(s) => out.append(s.as_str()),
        Value::Blob(b) => {
            let text = read_lossy(b);
            out.append(text.as_str());
        },
    }
}

/// A value as text, in a string of its own; for a real, the decimal form
/// given with it.
pub fn format_value(v: &Value, decimal: &str) -> (text: String)
    ensures
        text@ == value_text(v@, decimal@),
{
    let mut out = String::new();
    push_value(&mut out, v, decimal);
    proof {
        assert(out@ =~= value_text(v@, decimal@));
    }
    out
}

} // verus!
