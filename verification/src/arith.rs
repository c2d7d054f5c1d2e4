use vstd::arithmetic::div_mod::lemma_fundamental_div_mod_converse;
use vstd::prelude::*;

verus! {

/// Quotient and remainder of `t` by a positive `d`, the quotient rounded
/// towards minus infinity, so that the remainder is never negative.
pub fn floor_div(t: i128, d: i128) -> (qr: (i128, i128))
    requires
        d > 0,
    ensures
        qr.0 == t / d,
        qr.1 == t % d,
        qr.0 * d + qr.1 == t,
        0 <= qr.1 < d,
{
    if t >= 0 {
        let q: i128 = t / d;
        let r: i128 = t % d;
        proof {
            vstd::arithmetic::div_mod::lemma_fundamental_div_mod(t as int, d as int);
            assert(d * (t / d) == (t / d) * d) by (nonlinear_arith);
        }
        (q, r)
    } else {
        let m: i128 = -(t + 1);
        let a: i128 = m / d;
        let b: i128 = m % d;
        proof {
            vstd::arithmetic::div_mod::lemma_fundamental_div_mod(m as int, d as int);
            assert(0 <= a <= m) by (nonlinear_arith)
                requires
                    m >= 0,
                    d > 0,
                    a == m / d,
            ;
        }
        let q: i128 = -a - 1;
        let r: i128 = d - 1 - b;
        proof {
            assert(q * d + r == t) by (nonlinear_arith)
                requires
                    m == d * a + b,
                    q == -a - 1,
                    r == d - 1 - b,
                    t == -(m + 1),
            ;
            lemma_fundamental_div_mod_converse(t as int, d as int, q as int, r as int);
        }
        (q, r)
    }
}

} // verus!
