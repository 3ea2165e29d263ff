use vstd::prelude::*;
use vstd::arithmetic::div_mod::lemma_fundamental_div_mod_converse;

verus! {

/// Bound on the magnitudes that the helpers below accept (2^126).
pub const ARITH_BOUND: i128 = 0x4000_0000_0000_0000_0000_0000_0000_0000;

/// Floor division by a positive divisor: the quotient rounds toward negative
/// infinity, so that it agrees with `/` on mathematical integers.
pub fn floor_div(n: i128, d: i128) -> (q: i128)
    requires
        d > 0,
        n > i128::MIN,
    ensures
        q == n / d,
{
    if n >= 0 {
        n / d
    } else {
        let m: i128 = -n - 1;
        let q0: i128 = m / d;
        proof {
            let r = (m as int) % (d as int);
            assert(m == q0 * d + r) by (nonlinear_arith)
                requires
                    q0 == m / d,
                    r == m % d,
                    d > 0,
            ;
            assert(0 <= r < d);
            assert(0 <= q0 <= m) by (nonlinear_arith)
                requires
                    q0 == m / d,
                    m >= 0,
                    d > 0,
            ;
            assert(n == (-q0 - 1) * d + (d - r - 1)) by (nonlinear_arith)
                requires
                    m == q0 * d + r,
                    n == -m - 1,
            ;
            lemma_fundamental_div_mod_converse(n as int, d as int, -q0 - 1, d - r - 1);
        }
        -q0 - 1
    }
}

/// Euclidean remainder by a positive modulus: the result lies in `[0, d)`.
pub fn floor_mod(n: i128, d: i128) -> (r: i128)
    requires
        0 < d <= ARITH_BOUND,
        -ARITH_BOUND <= n <= ARITH_BOUND,
    ensures
        r == n % d,
        0 <= r < d,
{
    let q = floor_div(n, d);
    proof {
        assert(n == q * d + n % d && 0 <= n % d < d) by (nonlinear_arith)
            requires
                q == n / d,
                d > 0,
        ;
        assert(n - d < q * d <= n);
    }
    n - q * d
}

/// Dividing by a positive `d` keeps a value within `b` of zero.
pub(crate) proof fn lemma_div_within(a: int, d: int, b: int)
    requires
        d >= 1,
        -b <= a <= b,
    ensures
        -b <= a / d <= b,
{
    let q = a / d;
    let r = a % d;
    assert(a == d * q + r && 0 <= r < d) by (nonlinear_arith)
        requires
            q == a / d,
            r == a % d,
            d >= 1,
    ;
    assert(-b <= q <= b) by (nonlinear_arith)
        requires
            a == d * q + r,
            0 <= r < d,
            d >= 1,
            -b <= a <= b,
    ;
}

/// Dividing a value within `k * d` of zero by `d` gives a value within `k`.
pub(crate) proof fn lemma_div_shrinks(x: int, d: int, k: int)
    requires
        d >= 1,
        k >= 0,
        -k * d <= x <= k * d,
    ensures
        -k <= x / d <= k,
{
    let q = x / d;
    let r = x % d;
    assert(x == d * q + r && 0 <= r < d) by (nonlinear_arith)
        requires
            q == x / d,
            r == x % d,
            d >= 1,
    ;
    assert(-k <= q <= k) by (nonlinear_arith)
        requires
            x == d * q + r,
            0 <= r < d,
            d >= 1,
            k >= 0,
            -k * d <= x <= k * d,
    ;
}

} // verus!
