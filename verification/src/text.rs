//! Small verified helpers on strings.

use vstd::prelude::*;
use vstd::string::{StringExecFns, StringSliceAdditionalSpecFns};
use vstd::utf8::{decode_utf8, encode_utf8, encode_utf8_decode_utf8};

verus! {

/// Two character sequences with the same UTF-8 encoding are the same
/// sequence.
pub proof fn lemma_utf8_encoding_is_injective(a: Seq<char>, b: Seq<char>)
    requires
        encode_utf8(a) == encode_utf8(b),
    ensures
        a == b,
{
    encode_utf8_decode_utf8(a);
    encode_utf8_decode_utf8(b);
    assert(a == decode_utf8(encode_utf8(a)));
    assert(b == decode_utf8(encode_utf8(b)));
}

/// Whether two strings hold exactly the same characters (case-sensitive).
pub fn str_equal(a: &str, b: &str) -> (r: bool)
    ensures
        r == (a@ == b@),
{
    let x = a.as_bytes();
    let y = b.as_bytes();
    if x.len() != y.len() {
        return false;
    }
    let mut i: usize = 0;
    while i < x.len()
        invariant
            i <= x.len(),
            x.len() == y.len(),
            x@ == a.spec_bytes(),
            y@ == b.spec_bytes(),
            forall|j: int| 0 <= j < i ==> x@[j] == y@[j],
        decreases x.len() - i,
    {
        if x[i] != y[i] {
            return false;
        }
        i += 1;
    }
    proof {
        assert(x@ =~= y@);
        lemma_utf8_encoding_is_injective(a@, b@);
    }
    true
}

/// The numeral of one decimal digit.
pub open spec fn digit_text(digit: nat) -> Seq<char> {
    if digit == 0 {
        "0"@
    } else if digit == 1 {
        "1"@
    } else if digit == 2 {
        "2"@
    } else if digit == 3 {
        "3"@
    } else if digit == 4 {
        "4"@
    } else if digit == 5 {
        "5"@
    } else if digit == 6 {
        "6"@
    } else if digit == 7 {
        "7"@
    } else if digit == 8 {
        "8"@
    } else {
        "9"@
    }
}

/// The decimal numeral of a number: its digits from the most significant
/// to the least, with no sign, padding or leading zero.
pub open spec fn decimal_text(n: nat) -> Seq<char>
    decreases n,
{
    if n < 10 {
        digit_text(n)
    } else {
        decimal_text(n / 10) + digit_text(n % 10)
    }
}

/// The numeral of one decimal digit.
fn digit(d: u64) -> (numeral: &'static str)
    requires
        d < 10,
    ensures
        numeral@ == digit_text(d as nat),
{
    if d == 0 {
        "0"
    } else if d == 1 {
        "1"
    } else if d == 2 {
        "2"
    } else if d == 3 {
        "3"
    } else if d == 4 {
        "4"
    } else if d == 5 {
        "5"
    } else if d == 6 {
        "6"
    } else if d == 7 {
        "7"
    } else if d == 8 {
        "8"
    } else {
        "9"
    }
}

/// Writes a number as its decimal numeral.
pub fn decimal(n: u64) -> (numeral: String)
    ensures
        numeral@ == decimal_text(n as nat),
    decreases n,
{
    if n < 10 {
        String::from_str(digit(n))
    } else {
        let mut numeral = decimal(n / 10);
        numeral.append(digit(n % 10));
        numeral
    }
}

/// Two pieces of text in a row.
pub fn concat2(a: &str, b: &str) -> (text: String)
    ensures
        text@ == a@ + b@,
{
    let mut text = String::from_str(a);
    text.append(b);
    text
}

/// Three pieces of text in a row.
pub fn concat3(a: &str, b: &str, c: &str) -> (text: String)
    ensures
        text@ == a@ + b@ + c@,
{
    let mut text = String::from_str(a);
    text.append(b);
    text.append(c);
    text
}

/// Four pieces of text in a row.
pub fn concat4(a: &str, b: &str, c: &str, d: &str) -> (text: String)
    ensures
        text@ == a@ + b@ + c@ + d@,
{
    let mut text = concat3(a, b, c);
    text.append(d);
    text
}

/// Five pieces of text in a row.
pub fn concat5(a: &str, b: &str, c: &str, d: &str, e: &str) -> (text: String)
    ensures
        text@ == a@ + b@ + c@ + d@ + e@,
{
    let mut text = concat4(a, b, c, d);
    text.append(e);
    text
}

} // verus!
