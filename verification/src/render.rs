use vstd::prelude::*;
use vstd::string::StringExecFns;

verus! {

/// The character of one decimal digit.
pub open spec fn dec_digit(d: nat) -> char {
    if d == 0 {
        '0'
    } else if d == 1 {
        '1'
    } else if d == 2 {
        '2'
    } else if d == 3 {
        '3'
    } else if d == 4 {
        '4'
    } else if d == 5 {
        '5'
    } else if d == 6 {
        '6'
    } else if d == 7 {
        '7'
    } else if d == 8 {
        '8'
    } else {
        '9'
    }
}

/// The decimal representation of a natural number, most significant digit
/// first, with no leading zeros (zero itself reads `"0"`).
pub open spec fn dec_rep(n: nat) -> Seq<char>
    decreases n,
{
    if n < 10 {
        seq![dec_digit(n)]
    } else {
        dec_rep(n / 10).push(dec_digit(n % 10))
    }
}

/// The decimal representation of an integer: a leading `'-'` when negative.
pub open spec fn int_rep(n: int) -> Seq<char> {
    if n < 0 {
        seq!['-'] + dec_rep((-n) as nat)
    } else {
        dec_rep(n as nat)
    }
}

/// The diagnostic description of the literal whose rendered value reads `v`.
pub open spec fn lit_desc(v: Seq<char>) -> Seq<char> {
    "the lit "@ + v
}

fn digit_str(d: u64) -> (r: String)
    requires
        d < 10,
    ensures
        r@ == seq![dec_digit(d as nat)],
{
    let s: &str = match d {
        0 => "0",
        1 => "1",
        2 => "2",
        3 => "3",
        4 => "4",
        5 => "5",
        6 => "6",
        7 => "7",
        8 => "8",
        _ => "9",
    };
    proof {
        reveal_strlit("0");
        reveal_strlit("1");
        reveal_strlit("2");
        reveal_strlit("3");
        reveal_strlit("4");
        reveal_strlit("5");
        reveal_strlit("6");
        reveal_strlit("7");
        reveal_strlit("8");
        reveal_strlit("9");
        assert(s@ =~= seq![dec_digit(d as nat)]);
    }
    String::from_str(s)
}

/// Render an unsigned 64-bit number in decimal.
pub fn u64_to_dec(n: u64) -> (r: String)
    ensures
        r@ == dec_rep(n as nat),
    decreases n,
{
    if n < 10 {
        digit_str(n)
    } else {
        let mut r = u64_to_dec(n / 10);
        let d = digit_str(n % 10);
        r.append(d.as_str());
        proof {
            assert(r@ =~= dec_rep(n as nat));
        }
        r
    }
}

/// Render a signed 64-bit number in decimal.
pub fn i64_to_dec(n: i64) -> (r: String)
    ensures
        r@ == int_rep(n as int),
{
    if n < 0 {
        let mag: u64 = (-(n as i128)) as u64;
        let mut r = String::from_str("-");
        let digits = u64_to_dec(mag);
        r.append(digits.as_str());
        proof {
            reveal_strlit("-");
            assert(r@ =~= int_rep(n as int));
        }
        r
    } else {
        u64_to_dec(n as u64)
    }
}

/// Relies on `String::push`: it appends the given character to the end of
/// the string and changes nothing else.
#[verifier::external_body]
pub(crate) fn push_char(s: &mut String, c: char)
    ensures
        final(s)@ == old(s)@.push(c),
{
    s.push(c);
}

} // verus!
