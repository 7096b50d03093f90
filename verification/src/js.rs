//! Pieces of JavaScript source text.

use vstd::prelude::*;
use vstd::string::*;

verus! {

/// The JavaScript string literal that denotes `text`: `text` in double quotes,
/// with the characters that cannot stand in a literal escaped.
pub uninterp spec fn js_string_literal(text: Seq<char>) -> Seq<char>;

/// `serde_json::to_string` on a string: the string as a JSON string literal,
/// which is a JavaScript string literal too. It writes into a byte vector, and
/// fails only where a write fails, which a write to a vector never does: the
/// result is never `None`.
#[verifier::external_body]
pub(crate) fn to_json_string(text: &str) -> (literal: Option<String>)
    ensures
        literal is Some,
        literal matches Some(quoted) ==> quoted@ == js_string_literal(text@),
{
    serde_json::to_string(text).ok()
}

/// The decimal digit of `d`.
pub open spec fn digit(d: nat) -> char
    recommends
        d < 10,
{
    seq!['0', '1', '2', '3', '4', '5', '6', '7', '8', '9'][d as int]
}

/// `n` in decimal digits, without leading zeros.
pub open spec fn decimal(n: nat) -> Seq<char>
    decreases n,
{
    if n < 10 {
        seq![digit(n)]
    } else {
        decimal(n / 10).push(digit(n % 10))
    }
}

fn digit_text(d: usize) -> (text: &'static str)
    requires
        d < 10,
    ensures
        text@ == seq![digit(d as nat)],
{
    proof {
        reveal_strlit("0");
        reveal_strlit("1");
        reveal_strlit("2");
        reveal_strlit("3");
        reveal_strlit("4");
        reveal_strlit("5");
        reveal_strlit("6");
        reveal_strlit("7");
        reveal_strlit("8");
        reveal_strlit("9");
    }
    let text = if d == 0 {
        "0"
    } else if d == 1 {
        "1"
    } else if d == 2 {
        "2"
    } else if d == 3 {
        "3"
    } else if d == 4 {
        "4"
    } else if d == 5 {
        "5"
    } else if d == 6 {
        "6"
    } else if d == 7 {
        "7"
    } else if d == 8 {
        "8"
    } else {
        "9"
    };
    assert(text@ =~= seq![digit(d as nat)]);
    text
}

/// `n` written in decimal.
pub fn decimal_string(n: usize) -> (text: String)
    ensures
        text@ == decimal(n as nat),
    decreases n,
{
    if n < 10 {
        String::from_str(digit_text(n))
    } else {
        let text = decimal_string(n / 10).concat(digit_text(n % 10));
        assert(text@ =~= decimal((n / 10) as nat).push(digit((n % 10) as nat)));
        text
    }
}

} // verus!
