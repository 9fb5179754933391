//! Rounding a ratio of natural numbers to the nearest integer.

use vstd::prelude::*;

verus! {

/// The integer nearest to `num / den`; where two integers are equally near,
/// the even one.
pub open spec fn round_half_even(num: nat, den: nat) -> nat
    recommends
        den > 0,
{
    let q = num / den;
    let r = num % den;
    if 2 * r < den {
        q
    } else if 2 * r > den {
        q + 1
    } else if q % 2 == 0 {
        q
    } else {
        q + 1
    }
}

/// Whether `r` is an integer nearest to `num / den`, and the even one of the
/// two where `num / den` lies halfway between two integers.
pub open spec fn is_nearest_even(r: nat, num: nat, den: nat) -> bool {
    &&& 2 * (r * den - num) <= den
    &&& 2 * (num - r * den) <= den
    &&& (2 * (r * den - num) == den || 2 * (num - r * den) == den) ==> r % 2 == 0
}

/// `round_half_even` yields the nearest integer, the even one on a tie.
pub proof fn lemma_round_half_even_nearest(num: nat, den: nat)
    requires
        den > 0,
    ensures
        is_nearest_even(round_half_even(num, den), num, den),
{
    let q = num / den;
    let r = num % den;
    assert(num == q * den + r && 0 <= r < den) by (nonlinear_arith)
        requires
            den > 0,
            q == num / den,
            r == num % den,
    ;
    assert((q + 1) * den == q * den + den) by (nonlinear_arith);
}

/// Only the integer that `round_half_even` yields is nearest and, on a tie,
/// even: to be so determines the rounded value.
pub proof fn lemma_nearest_even_unique(r: nat, num: nat, den: nat)
    requires
        den > 0,
        is_nearest_even(r, num, den),
    ensures
        r == round_half_even(num, den),
{
    let q = num / den;
    let m = num % den;
    assert(num == q * den + m && 0 <= m < den) by (nonlinear_arith)
        requires
            den > 0,
            q == num / den,
            m == num % den,
    ;
    assert((q + 1) * den == q * den + den) by (nonlinear_arith);
    if r < q {
        assert(r * den <= (q - 1) * den) by (nonlinear_arith)
            requires
                r <= q - 1,
                den > 0,
        ;
        assert((q - 1) * den == q * den - den) by (nonlinear_arith);
    } else if r > q + 1 {
        assert(r * den >= (q + 2) * den) by (nonlinear_arith)
            requires
                r >= q + 2,
                den > 0,
        ;
        assert((q + 2) * den == q * den + 2 * den) by (nonlinear_arith);
    }
}

/// A ratio that is at most `bound` rounds to at most `bound`.
pub proof fn lemma_round_half_even_bounded(num: nat, den: nat, bound: nat)
    requires
        den > 0,
        num <= bound * den,
    ensures
        round_half_even(num, den) <= bound,
{
    let q = num / den;
    let r = num % den;
    assert(num == q * den + r && 0 <= r < den) by (nonlinear_arith)
        requires
            den > 0,
            q == num / den,
            r == num % den,
    ;
    if q > bound {
        assert(q * den >= bound * den + den) by (nonlinear_arith)
            requires
                q >= bound + 1,
                den > 0,
        ;
    }
}

/// Rounds `num / den` to the nearest integer, ties to even.
pub fn round_ratio(num: u128, den: u128) -> (r: u128)
    requires
        den > 0,
    ensures
        r == round_half_even(num as nat, den as nat),
{
    let q = num / den;
    let rem = num % den;
    let rest = den - rem;
    proof {
        assert(num == q * den + rem && 0 <= rem < den) by (nonlinear_arith)
            requires
                den > 0,
                q == num as nat / den as nat,
                rem == num as nat % den as nat,
        ;
        if rem >= rest {
            assert(den >= 2);
            assert(q * 2 <= q * den) by (nonlinear_arith)
                requires
                    den >= 2,
                    q >= 0,
            ;
        }
    }
    if rem < rest {
        q
    } else if rem > rest {
        q + 1
    } else if q % 2 == 0 {
        q
    } else {
        q + 1
    }
}

} // verus!
