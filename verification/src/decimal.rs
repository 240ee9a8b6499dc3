//! Decimal rendering of unsigned balances.
//!
//! `dec_rep` is the mathematical decimal representation of a natural number
//! (most significant digit first, no leading zeros, `0` rendered as "0");
//! `u64_to_dec` produces exactly that string.

use vstd::prelude::*;

verus! {

/// The character for a single decimal digit.
pub open spec fn digit_char(d: int) -> char {
    if d == 0 {
        '0'
    } else if d == 1 {
        '1'
    } else if d == 2 {
        '2'
    } else if d == 3 {
        '3'
    } else if d == 4 {
        '4'
    } else if d == 5 {
        '5'
    } else if d == 6 {
        '6'
    } else if d == 7 {
        '7'
    } else if d == 8 {
        '8'
    } else {
        '9'
    }
}

/// The decimal representation of `n`, most significant digit first.
pub open spec fn dec_rep(n: nat) -> Seq<char>
    decreases n,
{
    if n < 10 {
        seq![digit_char(n as int)]
    } else {
        dec_rep(n / 10) + seq![digit_char((n % 10) as int)]
    }
}

/// A one-character string for a single decimal digit.
fn digit_str(d: u64) -> (r: &'static str)
    requires
        d < 10,
    ensures
        r@ == seq![digit_char(d as int)],
{
    proof {
        reveal_strlit("0");
        reveal_strlit("1");
        reveal_strlit("2");
        reveal_strlit("3");
        reveal_strlit("4");
        reveal_strlit("5");
        reveal_strlit("6");
        reveal_strlit("7");
        reveal_strlit("8");
        reveal_strlit("9");
    }
    let r = if d == 0 {
        "0"
    } else if d == 1 {
        "1"
    } else if d == 2 {
        "2"
    } else if d == 3 {
        "3"
    } else if d == 4 {
        "4"
    } else if d == 5 {
        "5"
    } else if d == 6 {
        "6"
    } else if d == 7 {
        "7"
    } else if d == 8 {
        "8"
    } else {
        "9"
    };
    proof {
        assert(r@ =~= seq![digit_char(d as int)]);
    }
    r
}

/// A decimal representation is never empty.
pub proof fn lemma_dec_rep_len(n: nat)
    ensures
        dec_rep(n).len() >= 1,
    decreases n,
{
    if n >= 10 {
        lemma_dec_rep_len(n / 10);
    }
}

/// Distinct numbers render to distinct decimal strings: the representation
/// determines the number.
pub proof fn lemma_dec_rep_injective(m: nat, n: nat)
    requires
        dec_rep(m) == dec_rep(n),
    ensures
        m == n,
    decreases m,
{
    if m < 10 && n < 10 {
        assert(seq![digit_char(m as int)][0] == digit_char(m as int));
        assert(seq![digit_char(n as int)][0] == digit_char(n as int));
        assert(digit_char(m as int) == digit_char(n as int));
    } else if m < 10 {
        lemma_dec_rep_len(n / 10);
        assert(dec_rep(m).len() == 1);
        assert(dec_rep(n).len() >= 2);
    } else if n < 10 {
        lemma_dec_rep_len(m / 10);
        assert(dec_rep(n).len() == 1);
        assert(dec_rep(m).len() >= 2);
    } else {
        let pm = dec_rep(m / 10);
        let pn = dec_rep(n / 10);
        assert(dec_rep(m).last() == digit_char((m % 10) as int));
        assert(dec_rep(n).last() == digit_char((n % 10) as int));
        assert(m % 10 == n % 10);
        assert(pm.len() == pn.len());
        assert forall|i: int| 0 <= i < pm.len() implies pm[i] == pn[i] by {
            assert(dec_rep(m)[i] == pm[i]);
            assert(dec_rep(n)[i] == pn[i]);
        }
        assert(pm =~= pn);
        lemma_dec_rep_injective(m / 10, n / 10);
        vstd::arithmetic::div_mod::lemma_fundamental_div_mod(m as int, 10);
        vstd::arithmetic::div_mod::lemma_fundamental_div_mod(n as int, 10);
    }
}

/// Renders `n` in decimal, most significant digit first.
pub fn u64_to_dec(n: u64) -> (r: String)
    ensures
        r@ == dec_rep(n as nat),
    decreases n,
{
    if n < 10 {
        String::from_str(digit_str(n))
    } else {
        proof {
            assert(n / 10 < n) by (nonlinear_arith)
                requires
                    n >= 10,
            ;
        }
        let mut s = u64_to_dec(n / 10);
        s.append(digit_str(n % 10));
        s
    }
}

} // verus!
