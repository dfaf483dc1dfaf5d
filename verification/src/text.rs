// Verified construction of the decimal strings the calculator emits.

use vstd::prelude::*;
use vstd::arithmetic::div_mod::lemma_div_decreases;
use crate::fixed::abs_val;

verus! {

/// The decimal digit character for `d`.
pub open spec fn digit_char(d: int) -> char
    recommends
        0 <= d < 10,
{
    if d == 0 {
        '0'
    } else if d == 1 {
        '1'
    } else if d == 2 {
        '2'
    } else if d == 3 {
        '3'
    } else if d == 4 {
        '4'
    } else if d == 5 {
        '5'
    } else if d == 6 {
        '6'
    } else if d == 7 {
        '7'
    } else if d == 8 {
        '8'
    } else {
        '9'
    }
}

/// Decimal digits of `n`, most significant first, with no leading zeros
/// (a single `'0'` for zero).
pub open spec fn dec_seq(n: nat) -> Seq<char>
    decreases n,
{
    if n < 10 {
        seq![digit_char(n as int)]
    } else {
        dec_seq(n / 10).push(digit_char((n % 10) as int))
    }
}

/// `x` micro-units rendered with two decimal places: the magnitude is
/// rounded to the nearest hundredth, half away from zero, and a minus sign
/// precedes the digits of a negative value.
pub open spec fn two_dec_seq(x: int) -> Seq<char> {
    let c = (abs_val(x) + 5000) / 10000;
    let sign: Seq<char> = if x < 0 {
        seq!['-']
    } else {
        Seq::empty()
    };
    sign + dec_seq((c / 100) as nat) + seq!['.'] + seq![
        digit_char(c / 10 % 10),
        digit_char(c % 10),
    ]
}

/// Appends the digit character for `d`.
fn append_digit(s: &mut String, d: u128)
    requires
        d < 10,
    ensures
        final(s)@ == old(s)@.push(digit_char(d as int)),
{
    if d == 0 {
        s.append("0");
        proof {
            reveal_strlit("0");
            assert(s@ =~= old(s)@.push(digit_char(d as int)));
        }
    } else if d == 1 {
        s.append("1");
        proof {
            reveal_strlit("1");
            assert(s@ =~= old(s)@.push(digit_char(d as int)));
        }
    } else if d == 2 {
        s.append("2");
        proof {
            reveal_strlit("2");
            assert(s@ =~= old(s)@.push(digit_char(d as int)));
        }
    } else if d == 3 {
        s.append("3");
        proof {
            reveal_strlit("3");
            assert(s@ =~= old(s)@.push(digit_char(d as int)));
        }
    } else if d == 4 {
        s.append("4");
        proof {
            reveal_strlit("4");
            assert(s@ =~= old(s)@.push(digit_char(d as int)));
        }
    } else if d == 5 {
        s.append("5");
        proof {
            reveal_strlit("5");
            assert(s@ =~= old(s)@.push(digit_char(d as int)));
        }
    } else if d == 6 {
        s.append("6");
        proof {
            reveal_strlit("6");
            assert(s@ =~= old(s)@.push(digit_char(d as int)));
        }
    } else if d == 7 {
        s.append("7");
        proof {
            reveal_strlit("7");
            assert(s@ =~= old(s)@.push(digit_char(d as int)));
        }
    } else if d == 8 {
        s.append("8");
        proof {
            reveal_strlit("8");
            assert(s@ =~= old(s)@.push(digit_char(d as int)));
        }
    } else {
        s.append("9");
        proof {
            reveal_strlit("9");
            assert(s@ =~= old(s)@.push(digit_char(d as int)));
        }
    }
}

/// Appends the decimal digits of `n`.
fn append_dec(s: &mut String, n: u128)
    ensures
        final(s)@ == old(s)@ + dec_seq(n as nat),
    decreases n,
{
    if n < 10 {
        append_digit(s, n);
        proof {
            assert(s@ =~= old(s)@ + dec_seq(n as nat));
        }
    } else {
        proof {
            lemma_div_decreases(n as int, 10);
        }
        append_dec(s, n / 10);
        append_digit(s, n % 10);
        proof {
            assert(s@ =~= old(s)@ + dec_seq(n as nat));
        }
    }
}

/// Renders `x` micro-units with two decimal places.
pub fn format_two_dec(x: i128) -> (r: String)
    requires
        x > i128::MIN,
    ensures
        r@ == two_dec_seq(x as int),
{
    let neg = x < 0;
    let m: u128 = if x < 0 {
        (-x) as u128
    } else {
        x as u128
    };
    proof {
        assert(m == abs_val(x as int));
    }
    let c: u128 = (m + 5000) / 10000;
    let mut s = String::new();
    if neg {
        s.append("-");
    }
    append_dec(&mut s, c / 100);
    s.append(".");
    append_digit(&mut s, c / 10 % 10);
    append_digit(&mut s, c % 10);
    proof {
        reveal_strlit("-");
        reveal_strlit(".");
        assert(s@ =~= two_dec_seq(x as int));
    }
    s
}

/// Renders `n` in plain decimal.
pub fn format_u64(n: u64) -> (r: String)
    ensures
        r@ == dec_seq(n as nat),
{
    let mut s = String::new();
    append_dec(&mut s, n as u128);
    proof {
        assert(s@ =~= dec_seq(n as nat));
    }
    s
}

} // verus!
