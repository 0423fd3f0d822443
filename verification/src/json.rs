//! Text rendering: decimal numbers and JSON string literals.

use vstd::prelude::*;
use vstd::string::*;

verus! {

/// The character of a decimal digit.
pub open spec fn digit_char(d: nat) -> char {
    if d == 0 {
        '0'
    } else if d == 1 {
        '1'
    } else if d == 2 {
        '2'
    } else if d == 3 {
        '3'
    } else if d == 4 {
        '4'
    } else if d == 5 {
        '5'
    } else if d == 6 {
        '6'
    } else if d == 7 {
        '7'
    } else if d == 8 {
        '8'
    } else {
        '9'
    }
}

/// The decimal text of a natural number, without sign or leading zeros.
pub open spec fn decimal(n: nat) -> Seq<char>
    decreases n,
{
    if n < 10 {
        seq![digit_char(n)]
    } else {
        decimal(n / 10).push(digit_char(n % 10))
    }
}

/// What `serde_json` makes of a string: the JSON string literal, quotes and
/// escapes included; `None` would stand for an error of the serializer.
pub uninterp spec fn json_string_text(s: Seq<char>) -> Option<Seq<char>>;

/// The text of a string that may be missing.
pub open spec fn text_of(s: Option<String>) -> Option<Seq<char>> {
    match s {
        Some(t) => Some(t@),
        None => None,
    }
}

/// Calls `serde_json::to_string` on a string slice; `None` stands for the
/// serializer's error. The text depends on the argument alone. The call
/// succeeds on every string: the serializer fails only where a value refuses
/// to be serialized or a map has a key that is no string, and a string is
/// written into a byte vector, which takes every write.
#[verifier::external_body]
pub(crate) fn json_string(s: &str) -> (r: Option<String>)
    ensures
        r is Some,
        text_of(r) == json_string_text(s@),
{
    serde_json::to_string(s).ok()
}

fn digit_text(d: u8) -> (r: &'static str)
    requires
        d < 10,
    ensures
        r@ == seq![digit_char(d as nat)],
{
    proof {
        reveal_strlit("0");
        reveal_strlit("1");
        reveal_strlit("2");
        reveal_strlit("3");
        reveal_strlit("4");
        reveal_strlit("5");
        reveal_strlit("6");
        reveal_strlit("7");
        reveal_strlit("8");
        reveal_strlit("9");
    }
    let r = if d == 0 {
        "0"
    } else if d == 1 {
        "1"
    } else if d == 2 {
        "2"
    } else if d == 3 {
        "3"
    } else if d == 4 {
        "4"
    } else if d == 5 {
        "5"
    } else if d == 6 {
        "6"
    } else if d == 7 {
        "7"
    } else if d == 8 {
        "8"
    } else {
        "9"
    };
    assert(r@ =~= seq![digit_char(d as nat)]);
    r
}

/// Renders a number in decimal.
pub fn decimal_string(n: u128) -> (r: String)
    ensures
        r@ == decimal(n as nat),
    decreases n,
{
    if n < 10 {
        let d: u8 = n as u8;
        String::from_str(digit_text(d))
    } else {
        let d: u8 = (n % 10) as u8;
        let head = decimal_string(n / 10);
        let r = head.concat(digit_text(d));
        assert(r@ =~= decimal(n as nat));
        r
    }
}

} // verus!
