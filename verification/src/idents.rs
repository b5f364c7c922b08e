//! Synthesis of identifiers for parameters that the declaration leaves
//! unnamed: the `i`-th such parameter becomes `__unnamed_{i}`.

use vstd::prelude::*;

verus! {

/// The character for a single decimal digit.
pub open spec fn digit_char(d: nat) -> char {
    if d == 0 {
        '0'
    } else if d == 1 {
        '1'
    } else if d == 2 {
        '2'
    } else if d == 3 {
        '3'
    } else if d == 4 {
        '4'
    } else if d == 5 {
        '5'
    } else if d == 6 {
        '6'
    } else if d == 7 {
        '7'
    } else if d == 8 {
        '8'
    } else {
        '9'
    }
}

/// The decimal representation of `n`, most significant digit first, with no
/// leading zeroes (except for `n == 0` itself).
pub open spec fn decimal_chars(n: nat) -> Seq<char>
    decreases n,
{
    if n < 10 {
        seq![digit_char(n)]
    } else {
        decimal_chars(n / 10).push(digit_char(n % 10))
    }
}

/// The identifier synthesized for the `i`-th unnamed parameter of a
/// signature, counting unnamed parameters from zero in declaration order.
pub open spec fn unnamed_ident(i: nat) -> Seq<char> {
    "__unnamed_"@ + decimal_chars(i)
}

/// Appends the single decimal digit `d` to `s`.
fn push_digit(s: &mut String, d: usize)
    requires
        d < 10,
    ensures
        final(s)@ == old(s)@ + seq![digit_char(d as nat)],
{
    if d == 0 {
        s.append("0");
        proof {
            reveal_strlit("0");
            assert(old(s)@ + "0"@ =~= old(s)@ + seq![digit_char(0)]);
        }
    } else if d == 1 {
        s.append("1");
        proof {
            reveal_strlit("1");
            assert(old(s)@ + "1"@ =~= old(s)@ + seq![digit_char(1)]);
        }
    } else if d == 2 {
        s.append("2");
        proof {
            reveal_strlit("2");
            assert(old(s)@ + "2"@ =~= old(s)@ + seq![digit_char(2)]);
        }
    } else if d == 3 {
        s.append("3");
        proof {
            reveal_strlit("3");
            assert(old(s)@ + "3"@ =~= old(s)@ + seq![digit_char(3)]);
        }
    } else if d == 4 {
        s.append("4");
        proof {
            reveal_strlit("4");
            assert(old(s)@ + "4"@ =~= old(s)@ + seq![digit_char(4)]);
        }
    } else if d == 5 {
        s.append("5");
        proof {
            reveal_strlit("5");
            assert(old(s)@ + "5"@ =~= old(s)@ + seq![digit_char(5)]);
        }
    } else if d == 6 {
        s.append("6");
        proof {
            reveal_strlit("6");
            assert(old(s)@ + "6"@ =~= old(s)@ + seq![digit_char(6)]);
        }
    } else if d == 7 {
        s.append("7");
        proof {
            reveal_strlit("7");
            assert(old(s)@ + "7"@ =~= old(s)@ + seq![digit_char(7)]);
        }
    } else if d == 8 {
        s.append("8");
        proof {
            reveal_strlit("8");
            assert(old(s)@ + "8"@ =~= old(s)@ + seq![digit_char(8)]);
        }
    } else {
        s.append("9");
        proof {
            reveal_strlit("9");
            assert(old(s)@ + "9"@ =~= old(s)@ + seq![digit_char(9)]);
        }
    }
}

/// Appends the decimal representation of `n` to `s`.
fn push_decimal(s: &mut String, n: usize)
    ensures
        final(s)@ == old(s)@ + decimal_chars(n as nat),
    decreases n,
{
    if n < 10 {
        push_digit(s, n);
    } else {
        push_decimal(s, n / 10);
        push_digit(s, n % 10);
        proof {
            assert((old(s)@ + decimal_chars((n / 10) as nat))
                + seq![digit_char((n % 10) as nat)]
                =~= old(s)@ + decimal_chars(n as nat));
        }
    }
}

/// Builds the synthesized identifier for the `i`-th unnamed parameter.
pub fn unnamed_param_ident(i: usize) -> (s: String)
    ensures
        s@ == unnamed_ident(i as nat),
{
    let mut s = String::from_str("__unnamed_");
    push_decimal(&mut s, i);
    s
}

} // verus!
