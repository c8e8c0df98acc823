//! Digits: how numbers are written out and read back.

use vstd::prelude::*;
use vstd::string::*;

verus! {

/// The character that stands for a digit: `0`-`9`, then `a`-`z`.
pub open spec fn digit_char(d: nat) -> char
    recommends
        d < 36,
{
    if d < 10 {
        ((48 + d) as u8) as char
    } else {
        ((87 + d) as u8) as char
    }
}

/// A number written in a base from 2 to 36, most significant digit first,
/// without leading zeros; zero is written `0`.
pub open spec fn written(n: nat, base: nat) -> Seq<char>
    recommends
        2 <= base <= 36,
    decreases n,
{
    if base < 2 || n < base {
        seq![digit_char(n)]
    } else {
        proof {
            assert(n / base < n) by (nonlinear_arith)
                requires
                    2 <= base <= n,
            ;
        }
        written(n / base, base).push(digit_char(n % base))
    }
}

/// A number in decimal.
pub open spec fn decimal(n: nat) -> Seq<char> {
    written(n, 10)
}

/// A number in lower-case hexadecimal.
pub open spec fn hexadecimal(n: nat) -> Seq<char> {
    written(n, 16)
}

/// The digit that a character stands for in hexadecimal, in either case.
pub open spec fn hex_digit_value(c: char) -> Option<nat> {
    if '0' <= c <= '9' {
        Some((c as u32 - 48) as nat)
    } else if 'a' <= c <= 'f' {
        Some((c as u32 - 87) as nat)
    } else if 'A' <= c <= 'F' {
        Some((c as u32 - 55) as nat)
    } else {
        None
    }
}

/// Every character is a hexadecimal digit.
pub open spec fn is_hex_digits(s: Seq<char>) -> bool {
    forall|i: int| 0 <= i < s.len() ==> (#[trigger] hex_digit_value(s[i])) is Some
}

/// The number that a run of hexadecimal digits stands for.
pub open spec fn hex_value(s: Seq<char>) -> nat
    decreases s.len(),
{
    if s.len() == 0 {
        0
    } else {
        16 * hex_value(s.drop_last()) + hex_digit_value(s.last()).unwrap()
    }
}

/// What reading a text as a hexadecimal `u128` gives: the text is an optional
/// `+` and then at least one hexadecimal digit, and nothing else; the number
/// must fit.
pub open spec fn parsed_hex(s: Seq<char>) -> Option<u128> {
    let body = if s.len() > 0 && s[0] == '+' {
        s.skip(1)
    } else {
        s
    };
    if body.len() > 0 && is_hex_digits(body) && hex_value(body) <= u128::MAX {
        Some(hex_value(body) as u128)
    } else {
        None
    }
}

/// `u128::from_str_radix` with radix 16: accepts an optional `+` followed by
/// one or more digits `0-9`, `a-f`, `A-F` whose value fits in 128 bits, and
/// gives that value; refuses every other text.
#[verifier::external_body]
pub(crate) fn u128_from_hex(s: &str) -> (r: Option<u128>)
    ensures
        r == parsed_hex(s@),
{
    u128::from_str_radix(s, 16).ok()
}

/// Writing a number in hexadecimal and reading it back gives the number.
pub proof fn lemma_hexadecimal_reads_back(n: nat)
    ensures
        hexadecimal(n).len() > 0,
        is_hex_digits(hexadecimal(n)),
        hexadecimal(n)[0] != '+',
        hex_value(hexadecimal(n)) == n,
        n <= u128::MAX ==> parsed_hex(hexadecimal(n)) == Some(n as u128),
    decreases n,
{
    let s = hexadecimal(n);
    if n < 16 {
        assert(s.drop_last() =~= Seq::<char>::empty());
        assert(hex_value(s.drop_last()) == 0);
    } else {
        lemma_hexadecimal_reads_back(n / 16);
        let head = hexadecimal(n / 16);
        assert(s.drop_last() =~= head);
        assert(s[0] == head[0]);
        assert forall|i: int| 0 <= i < s.len() implies (#[trigger] hex_digit_value(
            s[i],
        )) is Some by {
            if i < head.len() {
                assert(s[i] == head[i]);
            }
        }
    }
}

fn digit_str(d: u128) -> (s: &'static str)
    requires
        d < 10,
    ensures
        s@ == seq![digit_char(d as nat)],
{
    proof {
        reveal_strlit("0");
        reveal_strlit("1");
        reveal_strlit("2");
        reveal_strlit("3");
        reveal_strlit("4");
        reveal_strlit("5");
        reveal_strlit("6");
        reveal_strlit("7");
        reveal_strlit("8");
        reveal_strlit("9");
    }
    let s = if d == 0 {
        "0"
    } else if d == 1 {
        "1"
    } else if d == 2 {
        "2"
    } else if d == 3 {
        "3"
    } else if d == 4 {
        "4"
    } else if d == 5 {
        "5"
    } else if d == 6 {
        "6"
    } else if d == 7 {
        "7"
    } else if d == 8 {
        "8"
    } else {
        "9"
    };
    assert(s@ =~= seq![digit_char(d as nat)]);
    s
}

fn push_decimal(out: &mut String, v: u128)
    ensures
        final(out)@ == old(out)@ + decimal(v as nat),
    decreases v,
{
    if v >= 10 {
        push_decimal(out, v / 10);
    }
    out.append(digit_str(v % 10));
    assert(final(out)@ =~= old(out)@ + decimal(v as nat));
}

/// A number in decimal.
pub fn decimal_text(v: u128) -> (s: String)
    ensures
        s@ == decimal(v as nat),
{
    let mut out = String::new();
    push_decimal(&mut out, v);
    assert(out@ =~= decimal(v as nat));
    out
}

/// A truth value by its name.
pub open spec fn truth(b: bool) -> Seq<char> {
    if b {
        "true"@
    } else {
        "false"@
    }
}

/// A truth value by its name.
pub(crate) fn truth_text(b: bool) -> (s: String)
    ensures
        s@ == truth(b),
{
    if b {
        "true".to_owned()
    } else {
        "false".to_owned()
    }
}

/// A text between an opening and a closing one.
pub open spec fn enclosed(opening: Seq<char>, inner: Seq<char>, closing: Seq<char>) -> Seq<char> {
    opening + inner + closing
}

/// A text between an opening and a closing one.
pub(crate) fn enclosed_text(opening: &str, inner: String, closing: &str) -> (s: String)
    ensures
        s@ == enclosed(opening@, inner@, closing@),
{
    let mut s = opening.to_owned();
    s.append(inner.as_str());
    s.append(closing);
    s
}

} // verus!
