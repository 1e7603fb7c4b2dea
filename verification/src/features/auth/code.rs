//! One-time verification codes: six decimal digits, drawn at random.

use vstd::prelude::*;
use vstd::string::StringExecFns;

verus! {

/// The smallest code.
pub const CODE_MIN: u32 = 100000;

/// The largest code.
pub const CODE_MAX: u32 = 999999;

/// `Rng::gen_range` over `low..=high` on the operating system's random
/// source, which panics on an empty range. Trusted: the value lies in the
/// range. The call panics where the system has no random bytes to give.
#[verifier::external_body]
fn random_between(low: u32, high: u32) -> (n: u32)
    requires
        low <= high,
    ensures
        low <= n <= high,
{
    rand::Rng::gen_range(&mut rand::rngs::OsRng, low..=high)
}

/// The character of a decimal digit.
pub open spec fn digit_char(d: int) -> char {
    if d == 0 {
        '0'
    } else if d == 1 {
        '1'
    } else if d == 2 {
        '2'
    } else if d == 3 {
        '3'
    } else if d == 4 {
        '4'
    } else if d == 5 {
        '5'
    } else if d == 6 {
        '6'
    } else if d == 7 {
        '7'
    } else if d == 8 {
        '8'
    } else {
        '9'
    }
}

/// The number in decimal, without leading zeros.
pub open spec fn decimal(n: nat) -> Seq<char>
    decreases n,
{
    if n < 10 {
        seq![digit_char(n as int)]
    } else {
        decimal(n / 10).push(digit_char((n % 10) as int))
    }
}

/// A decimal digit.
pub open spec fn is_digit(c: char) -> bool {
    '0' <= c <= '9'
}

/// Six decimal digits, the first of them not zero: the form of a code.
pub open spec fn is_code(s: Seq<char>) -> bool {
    &&& s.len() == 6
    &&& forall|i: int| 0 <= i < 6 ==> is_digit(#[trigger] s[i])
    &&& s[0] != '0'
}

/// Each of the ten digits has a digit for its character, and only zero has
/// the character of zero.
pub proof fn lemma_digit(d: int)
    requires
        0 <= d <= 9,
    ensures
        is_digit(digit_char(d)),
        digit_char(d) == '0' <==> d == 0,
{
}

/// The decimal text of a number from 100000 to 999999 has the form of a
/// code: its six digits, the highest first.
pub proof fn lemma_code_text(n: nat)
    requires
        CODE_MIN <= n <= CODE_MAX,
    ensures
        is_code(decimal(n)),
        decimal(n) =~= seq![
            digit_char((n / 100000) as int),
            digit_char((n / 10000 % 10) as int),
            digit_char((n / 1000 % 10) as int),
            digit_char((n / 100 % 10) as int),
            digit_char((n / 10 % 10) as int),
            digit_char((n % 10) as int),
        ],
{
    let a5 = n / 100000;
    let a4 = n / 10000;
    let a3 = n / 1000;
    let a2 = n / 100;
    let a1 = n / 10;
    assert(a4 / 10 == a5 && a3 / 10 == a4 && a2 / 10 == a3 && a1 / 10 == a2);
    let s5 = decimal(a5);
    assert(s5 =~= seq![digit_char(a5 as int)]);
    let s4 = decimal(a4);
    assert(s4 == s5.push(digit_char((a4 % 10) as int)));
    let s3 = decimal(a3);
    assert(s3 == s4.push(digit_char((a3 % 10) as int)));
    let s2 = decimal(a2);
    assert(s2 == s3.push(digit_char((a2 % 10) as int)));
    let s1 = decimal(a1);
    assert(s1 == s2.push(digit_char((a1 % 10) as int)));
    let s0 = decimal(n);
    assert(s0 == s1.push(digit_char((n % 10) as int)));
    assert(s0.len() == 6);
    assert(s0[0] == digit_char(a5 as int));
    assert(s0[1] == digit_char((a4 % 10) as int));
    assert(s0[2] == digit_char((a3 % 10) as int));
    assert(s0[3] == digit_char((a2 % 10) as int));
    assert(s0[4] == digit_char((a1 % 10) as int));
    assert(s0[5] == digit_char((n % 10) as int));
    lemma_digit(a5 as int);
    lemma_digit((a4 % 10) as int);
    lemma_digit((a3 % 10) as int);
    lemma_digit((a2 % 10) as int);
    lemma_digit((a1 % 10) as int);
    lemma_digit((n % 10) as int);
}

/// The text of one decimal digit.
fn digit_text(d: u32) -> (s: &'static str)
    requires
        d < 10,
    ensures
        s@ == seq![digit_char(d as int)],
{
    proof {
        reveal_strlit("0");
        reveal_strlit("1");
        reveal_strlit("2");
        reveal_strlit("3");
        reveal_strlit("4");
        reveal_strlit("5");
        reveal_strlit("6");
        reveal_strlit("7");
        reveal_strlit("8");
        reveal_strlit("9");
    }
    let s = if d == 0 {
        "0"
    } else if d == 1 {
        "1"
    } else if d == 2 {
        "2"
    } else if d == 3 {
        "3"
    } else if d == 4 {
        "4"
    } else if d == 5 {
        "5"
    } else if d == 6 {
        "6"
    } else if d == 7 {
        "7"
    } else if d == 8 {
        "8"
    } else {
        "9"
    };
    assert(s@ =~= seq![digit_char(d as int)]);
    s
}

/// Writes a number in decimal.
pub fn decimal_text(n: u32) -> (s: String)
    ensures
        s@ == decimal(n as nat),
    decreases n,
{
    if n < 10 {
        digit_text(n).to_owned()
    } else {
        let mut s = decimal_text(n / 10);
        s.append(digit_text(n % 10));
        assert(s@ =~= decimal(n as nat));
        s
    }
}

/// Draws a verification code: a number from 100000 to 999999.
pub fn generate_code() -> (code: u32)
    ensures
        CODE_MIN <= code <= CODE_MAX,
{
    random_between(CODE_MIN, CODE_MAX)
}

} // verus!
