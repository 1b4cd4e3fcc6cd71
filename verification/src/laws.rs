//! Proofs about the protocol arithmetic: the response is congruent to
//! `k - c*x` modulo `q`, exponents of an order-`q` element only matter modulo
//! `q`, and a response computed from the real secret always verifies.
use vstd::prelude::*;

use crate::zkp::{pow_mod, respond_spec, verify_spec};
use vstd::arithmetic::div_mod::{
    lemma_add_mod_noop_right, lemma_fundamental_div_mod, lemma_mod_bound,
    lemma_mod_multiples_vanish, lemma_mul_mod_noop_general, lemma_small_mod,
};
use vstd::arithmetic::power::{
    lemma1_pow, lemma_pow_adds, lemma_pow_mod_noop, lemma_pow_multiplies, pow,
};

verus! {

/// The response is at most `q`, and adding back `c*x` returns to `k`, modulo
/// `q`: `respond_spec(k, c, x, q) + c*x = k (mod q)`. This holds for every
/// `k`, `c` and `x`, including the case where `c*x - k` is an exact multiple
/// of `q` and the response is `q` itself.
pub proof fn lemma_respond_congruence(k: nat, c: nat, x: nat, q: nat)
    requires
        q > 0,
    ensures
        respond_spec(k, c, x, q) <= q,
        ((respond_spec(k, c, x, q) + c * x) as int) % (q as int) == (k as int) % (q as int),
{
    let s: nat = respond_spec(k, c, x, q);
    let cx: nat = c * x;
    if k >= cx {
        let d: int = k - cx;
        assert(s == d % (q as int));
        lemma_mod_bound(d, q as int);
        lemma_add_mod_noop_right(cx as int, d, q as int);
        assert((cx + d % (q as int)) % (q as int) == (cx + d) % (q as int));
        assert(cx + d == k);
    } else {
        let d: int = cx - k;
        let m: int = d % (q as int);
        lemma_mod_bound(d, q as int);
        assert(s == q - m);
        lemma_fundamental_div_mod(d, q as int);
        let t: int = d / (q as int);
        assert(d == (q as int) * t + m);
        assert((q as int) * (1 + t) == q + (q as int) * t) by (nonlinear_arith);
        assert(s + cx == k + (q as int) * (1 + t));
        lemma_mod_multiples_vanish(1 + t, k as int, q as int);
        assert(((q as int) * (1 + t) + k) % (q as int) == (k as int) % (q as int));
    }
}

/// For an element of multiplicative order dividing `q`, exponents only matter
/// modulo `q`: if `a^q = 1 (mod p)` then `a^n = a^(n % q) (mod p)`.
pub proof fn lemma_pow_mod_cycle(a: nat, q: nat, p: nat, n: nat)
    requires
        p > 1,
        q > 0,
        pow_mod(a, q, p) == 1,
    ensures
        pow_mod(a, n, p) == pow_mod(a, n % q, p),
{
    let t: nat = n / q;
    let r: nat = n % q;
    lemma_fundamental_div_mod(n as int, q as int);
    assert(n == q * t + r);
    lemma_pow_multiplies(a as int, q, t);
    lemma_pow_adds(a as int, (q * t) as nat, r);
    assert(pow(a as int, n) == pow(pow(a as int, q), t) * pow(a as int, r));
    lemma_mul_mod_noop_general(pow(pow(a as int, q), t), pow(a as int, r), p as int);
    lemma_pow_mod_noop(pow(a as int, q), t, p as int);
    assert(pow(a as int, q) % (p as int) == 1) by {
        assert(pow_mod(a, q, p) == 1);
    };
    lemma1_pow(t);
    lemma_small_mod(1, p);
    assert(pow(pow(a as int, q), t) % (p as int) == 1);
    assert((pow(pow(a as int, q), t) % (p as int)) * pow(a as int, r) == 1 * pow(a as int, r));
    assert(1 * pow(a as int, r) == pow(a as int, r));
    assert((pow(pow(a as int, q), t) * pow(a as int, r)) % (p as int) == pow(a as int, r) % (
    p as int));
}

/// One half of completeness, for a single generator `g`: with `y = g^x mod p`
/// and `s = respond_spec(k, c, x, q)`, the verifier's product
/// `g^s * y^c mod p` equals the commitment `g^k mod p`.
pub proof fn lemma_check_one(g: nat, p: nat, q: nat, x: nat, k: nat, c: nat)
    requires
        p > 1,
        q > 0,
        k < q,
        pow_mod(g, q, p) == 1,
    ensures
        (pow(g as int, respond_spec(k, c, x, q)) * pow(pow_mod(g, x, p) as int, c)) % (p as int)
            == pow_mod(g, k, p),
{
    let s: nat = respond_spec(k, c, x, q);
    let y: nat = pow_mod(g, x, p);
    lemma_pow_mod_noop(pow(g as int, x), c, p as int);
    assert(pow(y as int, c) % (p as int) == pow(pow(g as int, x), c) % (p as int));
    lemma_pow_multiplies(g as int, x, c);
    lemma_mul_mod_noop_general(pow(g as int, s), pow(y as int, c), p as int);
    lemma_mul_mod_noop_general(pow(g as int, s), pow(g as int, x * c), p as int);
    assert((pow(g as int, s) * pow(y as int, c)) % (p as int) == (pow(g as int, s) * pow(
        g as int,
        x * c,
    )) % (p as int));
    lemma_pow_adds(g as int, s, x * c);
    lemma_respond_congruence(k, c, x, q);
    assert(((s + c * x) as int) % (q as int) == (k as int) % (q as int));
    lemma_small_mod(k, q);
    assert(c * x == x * c) by (nonlinear_arith);
    assert((s + x * c) % q == k);
    lemma_pow_mod_cycle(g, q, p, s + x * c);
    assert(pow_mod(g, s + x * c, p) == pow_mod(g, k, p));
}

/// Completeness of the Sigma protocol: for any secret `x`, nonce `k` and
/// challenge `c` in `[0, q)`, with commitments `y1 = alpha^x mod p` and
/// `y2 = beta^x mod p`, randoms `r1 = alpha^k mod p` and `r2 = beta^k mod p`,
/// and response `s = respond_spec(k, c, x, q)`, the verifier's check accepts,
/// provided both generators have multiplicative order dividing `q` modulo `p`.
pub proof fn lemma_completeness(alpha: nat, beta: nat, p: nat, q: nat, x: nat, k: nat, c: nat)
    requires
        p > 1,
        q > 0,
        x < q,
        k < q,
        c < q,
        pow_mod(alpha, q, p) == 1,
        pow_mod(beta, q, p) == 1,
    ensures
        verify_spec(
            pow_mod(alpha, k, p),
            pow_mod(beta, k, p),
            pow_mod(alpha, x, p),
            pow_mod(beta, x, p),
            c,
            respond_spec(k, c, x, q),
            p,
            alpha,
            beta,
        ),
{
    lemma_check_one(alpha, p, q, x, k, c);
    lemma_check_one(beta, p, q, x, k, c);
}

} // verus!
