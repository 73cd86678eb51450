//! Small numeric helpers.

use std::ops::{Add, Rem};
use vstd::arithmetic::div_mod::{
    lemma_fundamental_div_mod, lemma_fundamental_div_mod_converse_mod, lemma_mod_bound,
};
use vstd::prelude::*;
use vstd::std_specs::ops::{AddSpec, RemSpec};

verus! {

/// The value that `modulo` computes, over the operators of `N`: the remainder
/// of `n` by `m`, shifted up by `m` and reduced once more.
pub open spec fn modulo_spec<N>(n: N, m: N) -> N where
    N: Copy + Add<Output = N> + Rem<Output = N>,
 {
    n.rem_spec(m).add_spec(m).rem_spec(m)
}

/// The remainder of `n` by `m` with the sign of the modulus, where `%` alone
/// would give the sign of `n`: `((n % m) + m) % m`.
///
/// The operators of `N` must be specified, and each of the three steps must
/// be defined on what the step before it gives: for the integer types, `m`
/// is not zero and the sum in the middle fits.
pub fn modulo<N>(n: N, m: N) -> (r: N) where N: Copy + Add<Output = N> + Rem<Output = N>
    requires
        N::obeys_rem_spec(),
        N::obeys_add_spec(),
        n.rem_req(m),
        n.rem_spec(m).add_req(m),
        n.rem_spec(m).add_spec(m).rem_req(m),
    ensures
        r == modulo_spec(n, m),
{
    ((n % m) + m) % m
}

/// Reading a remainder off a division: where `x == q * d + r` with
/// `0 <= r < |d|`, the Euclidean remainder of `x` by `d` is `r`.
proof fn lemma_remainder_unique(x: int, d: int, q: int, r: int)
    requires
        d != 0,
        x == q * d + r,
        0 <= r,
        r < d || r < -d,
    ensures
        x % d == r,
{
    if d > 0 {
        lemma_fundamental_div_mod_converse_mod(x, d, q, r);
    } else {
        let e = -d;
        assert(x == (-q) * e + r) by (nonlinear_arith)
            requires
                x == q * d + r,
                e == -d,
        ;
        lemma_fundamental_div_mod_converse_mod(x, e, -q, r);
        assert(x % d == x % e) by (nonlinear_arith)
            requires
                e == -d,
                d < 0,
        ;
    }
}

/// On `i64`, for a positive modulus, `modulo` is the Euclidean remainder: it
/// lies in `0..m` and differs from `n` by a multiple of `m`. The sum inside
/// must fit: what `%` leaves of `n`, plus `m`, is at most `i64::MAX`.
pub proof fn lemma_modulo_i64_positive(n: i64, m: i64)
    requires
        m > 0,
        n.rem_spec(m).add_req(m),
    ensures
        n.rem_req(m),
        n.rem_spec(m).add_spec(m).rem_req(m),
        modulo_spec(n, m) == n as int % m as int,
        0 <= modulo_spec(n, m) < m,
{
    let d = m as int;
    let t = n.rem_spec(m) as int;
    if n >= 0 {
        lemma_mod_bound(n as int, d);
        assert(t == n as int % d);
        lemma_remainder_unique(t + d, d, 1, t);
    } else {
        let k = (-n) % d;
        lemma_mod_bound(-n, d);
        lemma_fundamental_div_mod(-n, d);
        let q = (-n) / d;
        assert(t == -k);
        if k == 0 {
            lemma_remainder_unique(t + d, d, 1, 0);
            assert(n as int == (-q) * d + 0) by (nonlinear_arith)
                requires
                    -n == d * q + k,
                    k == 0,
            ;
            lemma_remainder_unique(n as int, d, -q, 0);
        } else {
            lemma_remainder_unique(t + d, d, 0, d - k);
            assert(n as int == (-q - 1) * d + (d - k)) by (nonlinear_arith)
                requires
                    -n == d * q + k,
            ;
            lemma_remainder_unique(n as int, d, -q - 1, d - k);
        }
    }
}

/// On `i64`, for a negative modulus, `modulo` takes the sign of the modulus:
/// it lies in `m + 1..=0` and differs from `n` by a multiple of `m`.
pub proof fn lemma_modulo_i64_negative(n: i64, m: i64)
    requires
        m < 0,
        n.rem_req(m),
        n.rem_spec(m).add_req(m),
    ensures
        n.rem_spec(m).add_spec(m).rem_req(m),
        m < modulo_spec(n, m) <= 0,
        (n - modulo_spec(n, m)) % (m as int) == 0,
{
    let d = m as int;
    let e = -d;
    let t = n.rem_spec(m) as int;
    let s = t + d;
    if n >= 0 {
        assert(n as int % d == n as int % e) by (nonlinear_arith)
            requires
                e == -d,
                d < 0,
        ;
        lemma_mod_bound(n as int, e);
        lemma_fundamental_div_mod(n as int, e);
        let q = n as int / e;
        assert(t == n as int % e);
        assert(s < 0);
        if t == 0 {
            lemma_remainder_unique(-s, d, -1, 0);
            assert(modulo_spec(n, m) == 0);
            assert(n as int == (-q) * d + 0) by (nonlinear_arith)
                requires
                    n as int == e * q + t,
                    t == 0,
                    e == -d,
            ;
            lemma_remainder_unique(n as int, d, -q, 0);
        } else {
            lemma_remainder_unique(-s, d, 0, -s);
            assert(modulo_spec(n, m) == s);
            assert(n - s == (-q - 1) * d + 0) by (nonlinear_arith)
                requires
                    n as int == e * q + t,
                    s == t + d,
                    e == -d,
            ;
            lemma_remainder_unique(n - s, d, -q - 1, 0);
        }
    } else {
        assert((-n) % d == (-n) % e) by (nonlinear_arith)
            requires
                e == -d,
                d < 0,
        ;
        lemma_mod_bound(-n, e);
        lemma_fundamental_div_mod(-n, e);
        let q = (-n) / e;
        let k = (-n) % e;
        assert(t == -k);
        lemma_remainder_unique(-s, d, -1, k);
        assert(modulo_spec(n, m) == t);
        assert(n - t == q * d + 0) by (nonlinear_arith)
            requires
                -n == e * q + k,
                t == -k,
                e == -d,
        ;
        lemma_remainder_unique(n - t, d, q, 0);
    }
}

/// On `u64`, `modulo` is the plain remainder, provided the sum inside fits.
pub proof fn lemma_modulo_u64(n: u64, m: u64)
    requires
        m > 0,
        n.rem_spec(m).add_req(m),
    ensures
        n.rem_req(m),
        n.rem_spec(m).add_spec(m).rem_req(m),
        modulo_spec(n, m) == n % m,
{
    let t = n as int % m as int;
    lemma_mod_bound(n as int, m as int);
    lemma_remainder_unique(t + m, m as int, 1, t);
}

} // verus!
