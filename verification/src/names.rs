//! Synthesized parameter names.
//!
//! A wildcard parameter of an exported signature is replaced by a fresh
//! identifier derived from the parameter's zero-based position: a fixed
//! prefix followed by the position in decimal. Distinct positions yield
//! distinct names, which keeps the rewritten signature free of collisions
//! among the synthesized identifiers.

use vstd::prelude::*;
use vstd::string::StringExecFns;

verus! {

/// The character for a single decimal digit.
pub open spec fn digit_char(d: nat) -> char {
    if d == 0 {
        '0'
    } else if d == 1 {
        '1'
    } else if d == 2 {
        '2'
    } else if d == 3 {
        '3'
    } else if d == 4 {
        '4'
    } else if d == 5 {
        '5'
    } else if d == 6 {
        '6'
    } else if d == 7 {
        '7'
    } else if d == 8 {
        '8'
    } else {
        '9'
    }
}

/// The decimal digits of `n`, most significant first, with no leading zero
/// except for `n == 0` itself.
pub open spec fn decimal_digits(n: nat) -> Seq<char>
    decreases n,
{
    if n < 10 {
        seq![digit_char(n)]
    } else {
        decimal_digits(n / 10).push(digit_char(n % 10))
    }
}

/// The name synthesized for a wildcard parameter at position `i`.
pub open spec fn synth_name_seq(i: nat) -> Seq<char> {
    "___unused_arg_"@ + decimal_digits(i)
}

fn digit_str(d: usize) -> (s: &'static str)
    requires
        d < 10,
    ensures
        s@ == seq![digit_char(d as nat)],
{
    proof {
        reveal_strlit("0");
        reveal_strlit("1");
        reveal_strlit("2");
        reveal_strlit("3");
        reveal_strlit("4");
        reveal_strlit("5");
        reveal_strlit("6");
        reveal_strlit("7");
        reveal_strlit("8");
        reveal_strlit("9");
    }
    let s: &'static str = if d == 0 {
        "0"
    } else if d == 1 {
        "1"
    } else if d == 2 {
        "2"
    } else if d == 3 {
        "3"
    } else if d == 4 {
        "4"
    } else if d == 5 {
        "5"
    } else if d == 6 {
        "6"
    } else if d == 7 {
        "7"
    } else {
        "8"
    };
    if d == 9 {
        proof {
            assert("9"@ =~= seq![digit_char(d as nat)]);
        }
        "9"
    } else {
        proof {
            assert(s@ =~= seq![digit_char(d as nat)]);
        }
        s
    }
}

/// Render `n` in decimal.
pub fn decimal_string(n: usize) -> (s: String)
    ensures
        s@ == decimal_digits(n as nat),
    decreases n,
{
    if n < 10 {
        String::from_str(digit_str(n))
    } else {
        let mut s = decimal_string(n / 10);
        s.append(digit_str(n % 10));
        proof {
            assert(s@ =~= decimal_digits(n as nat));
        }
        s
    }
}

/// Build the synthesized name for a wildcard parameter at position `i`.
pub fn synth_name(i: usize) -> (s: String)
    ensures
        s@ == synth_name_seq(i as nat),
{
    let mut s = String::from_str("___unused_arg_");
    let digits = decimal_string(i);
    s.append(digits.as_str());
    s
}

pub proof fn lemma_decimal_digits_len(n: nat)
    ensures
        decimal_digits(n).len() >= 1,
    decreases n,
{
    if n >= 10 {
        lemma_decimal_digits_len(n / 10);
    }
}

pub proof fn lemma_digit_char_injective(a: nat, b: nat)
    requires
        a < 10,
        b < 10,
        digit_char(a) == digit_char(b),
    ensures
        a == b,
{
}

/// Distinct numbers have distinct decimal renderings.
pub proof fn lemma_decimal_digits_injective(a: nat, b: nat)
    requires
        decimal_digits(a) == decimal_digits(b),
    ensures
        a == b,
    decreases a,
{
    if a < 10 && b < 10 {
        assert(decimal_digits(a)[0] == digit_char(a));
        assert(decimal_digits(b)[0] == digit_char(b));
        lemma_digit_char_injective(a, b);
    } else if a < 10 && b >= 10 {
        lemma_decimal_digits_len(b / 10);
        assert(decimal_digits(b).len() >= 2);
        assert(decimal_digits(a).len() == 1);
    } else if a >= 10 && b < 10 {
        lemma_decimal_digits_len(a / 10);
        assert(decimal_digits(a).len() >= 2);
        assert(decimal_digits(b).len() == 1);
    } else {
        assert(decimal_digits(a).last() == digit_char(a % 10));
        assert(decimal_digits(b).last() == digit_char(b % 10));
        lemma_digit_char_injective(a % 10, b % 10);
        assert(decimal_digits(a).drop_last() =~= decimal_digits(a / 10));
        assert(decimal_digits(b).drop_last() =~= decimal_digits(b / 10));
        lemma_decimal_digits_injective(a / 10, b / 10);
        assert(a == 10 * (a / 10) + a % 10);
        assert(b == 10 * (b / 10) + b % 10);
    }
}

/// Distinct parameter positions get distinct synthesized names.
pub proof fn lemma_synth_name_injective(a: nat, b: nat)
    requires
        synth_name_seq(a) == synth_name_seq(b),
    ensures
        a == b,
{
    let p = "___unused_arg_"@;
    assert(decimal_digits(a) =~= synth_name_seq(a).subrange(
        p.len() as int,
        synth_name_seq(a).len() as int,
    ));
    assert(decimal_digits(b) =~= synth_name_seq(b).subrange(
        p.len() as int,
        synth_name_seq(b).len() as int,
    ));
    lemma_decimal_digits_injective(a, b);
}

} // verus!
