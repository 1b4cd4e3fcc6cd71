//! The Chaum-Pedersen group: a modulus `p`, a subgroup order `q` and two
//! generators `alpha` and `beta`, with the prover's response computation and
//! the verifier's check. All contracts are stated over the natural numbers the
//! big integers denote.
use vstd::prelude::*;

use crate::bignum::{
    big_eq, big_from_hex, big_ge, big_mul_val, big_rem_val, big_sub_val, big_val, hex_nat,
    is_hex_digit,
};
use num_bigint::RandBigInt;
use rand::Rng;
use vstd::arithmetic::power::pow;

verus! {

/// An ASCII letter or digit.
pub open spec fn is_ascii_alphanumeric_char(c: char) -> bool {
    let v = c as int;
    (48 <= v && v <= 57) || (65 <= v && v <= 90) || (97 <= v && v <= 122)
}

/// `base^exponent mod modulus` over the natural numbers.
pub open spec fn pow_mod(base: nat, exponent: nat, modulus: nat) -> nat
    recommends
        modulus > 0,
{
    (pow(base as int, exponent) % (modulus as int)) as nat
}

/// The prover's response `s` to challenge `c`: congruent to `k - c*x` modulo
/// `q`, computed by branching on the sign of `k - c*x`. When `k < c*x` and
/// `c*x - k` is an exact multiple of `q` the result is `q` itself rather than
/// `0`; verification still accepts it, since the generators have order `q`.
pub open spec fn respond_spec(k: nat, c: nat, x: nat, q: nat) -> nat
    recommends
        q > 0,
{
    if k >= c * x {
        ((k - c * x) % (q as int)) as nat
    } else {
        (q - (c * x - k) % (q as int)) as nat
    }
}

/// The verifier's equations: `alpha^s * y1^c = r1 (mod p)` and
/// `beta^s * y2^c = r2 (mod p)`.
pub open spec fn verify_spec(
    r1: nat,
    r2: nat,
    y1: nat,
    y2: nat,
    c: nat,
    s: nat,
    p: nat,
    alpha: nat,
    beta: nat,
) -> bool
    recommends
        p > 0,
{
    &&& (pow(alpha as int, s) * pow(y1 as int, c)) % (p as int) == r1
    &&& (pow(beta as int, s) * pow(y2 as int, c)) % (p as int) == r2
}

pub struct ZKP {
    pub p: num_bigint::BigUint,
    pub q: num_bigint::BigUint,
    pub alpha: num_bigint::BigUint,
    pub beta: num_bigint::BigUint,
}

/// The standardized 1024-bit group that `ZKP::new` builds: `p`, `q` and
/// `alpha` are the RFC 5114 constants, and `beta = alpha^e mod p` for a fixed
/// public exponent `e`.
pub open spec fn rfc_group(z: ZKP) -> bool {
    &&& big_val(z.p) == hex_nat(
        "B10B8F96A080E01DDE92DE5EAE5D54EC52C99FBCFB06A3C69A6A9DCA52D23B616073E28675A23D189838EF1E2EE652C013ECB4AEA906112324975C3CD49B83BFACCBDD7D90C4BD7098488E9C219A73724EFFD6FAE5644738FAA31A4FF55BCCC0A151AF5F0DC8B4BD45BF37DF365C1A65E68CFDA76D4DA708DF1FB2BC2E4A4371"@,
    )
    &&& big_val(z.q) == hex_nat("F518AA8781A8DF278ABA4E7D64B7CB9D49462353"@)
    &&& big_val(z.alpha) == hex_nat(
        "A4D1CBD5C3FD34126765A442EFB99905F8104DD258AC507FD6406CFF14266D31266FEA1E5C41564B777E690F5504F213160217B4B01B886A5E91547F9E2749F4D7FBD7D3B9A92EE1909D0D2263F80A76A6A24C087A091F531DBF0A0169B6A28AD662A4D18E73AFA32D779D5918D08BC8858F4DCEF97C2A24855E6EEB22B3B2E5"@,
    )
    &&& big_val(z.beta) == pow_mod(
        big_val(z.alpha),
        hex_nat("266D31266FEA1E5C41564B777E69"@),
        big_val(z.p),
    )
    &&& big_val(z.p) > 1
    &&& big_val(z.q) > 1
}

impl ZKP {
    pub fn new() -> (r: Self)
        ensures
            rfc_group(r),
    {
        let p_hex =
            "B10B8F96A080E01DDE92DE5EAE5D54EC52C99FBCFB06A3C69A6A9DCA52D23B616073E28675A23D189838EF1E2EE652C013ECB4AEA906112324975C3CD49B83BFACCBDD7D90C4BD7098488E9C219A73724EFFD6FAE5644738FAA31A4FF55BCCC0A151AF5F0DC8B4BD45BF37DF365C1A65E68CFDA76D4DA708DF1FB2BC2E4A4371";
        let q_hex = "F518AA8781A8DF278ABA4E7D64B7CB9D49462353";
        let alpha_hex =
            "A4D1CBD5C3FD34126765A442EFB99905F8104DD258AC507FD6406CFF14266D31266FEA1E5C41564B777E690F5504F213160217B4B01B886A5E91547F9E2749F4D7FBD7D3B9A92EE1909D0D2263F80A76A6A24C087A091F531DBF0A0169B6A28AD662A4D18E73AFA32D779D5918D08BC8858F4DCEF97C2A24855E6EEB22B3B2E5";
        let exp_hex = "266D31266FEA1E5C41564B777E69";
        proof {
            reveal_strlit(
                "B10B8F96A080E01DDE92DE5EAE5D54EC52C99FBCFB06A3C69A6A9DCA52D23B616073E28675A23D189838EF1E2EE652C013ECB4AEA906112324975C3CD49B83BFACCBDD7D90C4BD7098488E9C219A73724EFFD6FAE5644738FAA31A4FF55BCCC0A151AF5F0DC8B4BD45BF37DF365C1A65E68CFDA76D4DA708DF1FB2BC2E4A4371",
            );
            reveal_strlit("F518AA8781A8DF278ABA4E7D64B7CB9D49462353");
            reveal_strlit(
                "A4D1CBD5C3FD34126765A442EFB99905F8104DD258AC507FD6406CFF14266D31266FEA1E5C41564B777E690F5504F213160217B4B01B886A5E91547F9E2749F4D7FBD7D3B9A92EE1909D0D2263F80A76A6A24C087A091F531DBF0A0169B6A28AD662A4D18E73AFA32D779D5918D08BC8858F4DCEF97C2A24855E6EEB22B3B2E5",
            );
            reveal_strlit("266D31266FEA1E5C41564B777E69");
            assert(forall|i: int| 0 <= i < p_hex@.len() ==> is_hex_digit(p_hex@[i]));
            assert(forall|i: int| 0 <= i < q_hex@.len() ==> is_hex_digit(q_hex@[i]));
            assert(forall|i: int| 0 <= i < alpha_hex@.len() ==> is_hex_digit(alpha_hex@[i]));
            assert(forall|i: int| 0 <= i < exp_hex@.len() ==> is_hex_digit(exp_hex@[i]));
            // p ends in the digits "71", so its value is at least 7*16 + 1.
            assert(hex_nat(p_hex@) == hex_nat(p_hex@.drop_last()) * 16 + 1) by {
                assert(p_hex@.last() == '1');
            };
            assert(hex_nat(p_hex@.drop_last()) == hex_nat(p_hex@.drop_last().drop_last()) * 16
                + 7) by {
                assert(p_hex@.drop_last().last() == '7');
            };
            // q ends in the digit "3".
            assert(hex_nat(q_hex@) == hex_nat(q_hex@.drop_last()) * 16 + 3) by {
                assert(q_hex@.last() == '3');
            };
        }
        let p = big_from_hex(p_hex);
        let q = big_from_hex(q_hex);
        let alpha = big_from_hex(alpha_hex);
        let exp = big_from_hex(exp_hex);
        let beta = ZKP::exponentiate(&alpha, &exp, &p);
        ZKP { alpha, beta, p, q }
    }

    /// Relies on `BigUint::modpow`: `n^exponent % modulus`, which panics on a
    /// zero modulus, so that case is excluded here.
    #[verifier::external_body]
    pub fn exponentiate(
        n: &num_bigint::BigUint,
        exponent: &num_bigint::BigUint,
        modulus: &num_bigint::BigUint,
    ) -> (r: num_bigint::BigUint)
        requires
            big_val(*modulus) > 0,
        ensures
            big_val(r) == pow_mod(big_val(*n), big_val(*exponent), big_val(*modulus)),
    {
        n.modpow(exponent, modulus)
    }

    /// The prover's response `s = k - c*x (mod q)`, with the sign of `k - c*x`
    /// handled by branching.
    pub fn solve(
        &self,
        k: &num_bigint::BigUint,
        c: &num_bigint::BigUint,
        x: &num_bigint::BigUint,
    ) -> (r: num_bigint::BigUint)
        requires
            big_val(self.q) > 0,
        ensures
            big_val(r) == respond_spec(big_val(*k), big_val(*c), big_val(*x), big_val(self.q)),
    {
        let cx = big_mul_val(c, x);
        if big_ge(k, &cx) {
            let d = big_sub_val(k, &cx);
            big_rem_val(&d, &self.q)
        } else {
            let d = big_sub_val(&cx, k);
            let m = big_rem_val(&d, &self.q);
            big_sub_val(&self.q, &m)
        }
    }

    /// The verifier's check: both congruences are evaluated, and the result is
    /// their conjunction.
    pub fn verify(
        &self,
        r1: &num_bigint::BigUint,
        r2: &num_bigint::BigUint,
        y1: &num_bigint::BigUint,
        y2: &num_bigint::BigUint,
        c: &num_bigint::BigUint,
        s: &num_bigint::BigUint,
    ) -> (r: bool)
        requires
            big_val(self.p) > 0,
        ensures
            r == verify_spec(
                big_val(*r1),
                big_val(*r2),
                big_val(*y1),
                big_val(*y2),
                big_val(*c),
                big_val(*s),
                big_val(self.p),
                big_val(self.alpha),
                big_val(self.beta),
            ),
    {
        let alpha_s = ZKP::exponentiate(&self.alpha, s, &self.p);
        let y1_c = ZKP::exponentiate(y1, c, &self.p);
        let prod1 = big_mul_val(&alpha_s, &y1_c);
        let lhs1 = big_rem_val(&prod1, &self.p);
        let ver1 = big_eq(r1, &lhs1);
        let beta_s = ZKP::exponentiate(&self.beta, s, &self.p);
        let y2_c = ZKP::exponentiate(y2, c, &self.p);
        let prod2 = big_mul_val(&beta_s, &y2_c);
        let lhs2 = big_rem_val(&prod2, &self.p);
        let ver2 = big_eq(r2, &lhs2);
        proof {
            vstd::arithmetic::div_mod::lemma_mul_mod_noop_general(
                pow(big_val(self.alpha) as int, big_val(*s)),
                pow(big_val(*y1) as int, big_val(*c)),
                big_val(self.p) as int,
            );
            vstd::arithmetic::div_mod::lemma_mul_mod_noop_general(
                pow(big_val(self.beta) as int, big_val(*s)),
                pow(big_val(*y2) as int, big_val(*c)),
                big_val(self.p) as int,
            );
        }
        ver1 && ver2
    }

    /// Relies on `RandBigInt::gen_biguint_below` over `rand::thread_rng`: a
    /// random value below the bound; it panics on a zero bound, so that case
    /// is excluded here. Nothing more is promised of the outcome.
    #[verifier::external_body]
    pub fn generate_random_below(bound: &num_bigint::BigUint) -> (r: num_bigint::BigUint)
        requires
            big_val(*bound) > 0,
        ensures
            big_val(r) < big_val(*bound),
    {
        rand::thread_rng().gen_biguint_below(bound)
    }

    /// Relies on sampling `rand::distributions::Alphanumeric` over
    /// `rand::thread_rng`: each sample is one ASCII letter or digit. Nothing
    /// more is promised of the outcome.
    #[verifier::external_body]
    pub fn generate_random_string(size: usize) -> (r: String)
        ensures
            r@.len() == size as nat,
            forall|i: int| 0 <= i < r@.len() ==> is_ascii_alphanumeric_char(r@[i]),
    {
        rand::thread_rng()
            .sample_iter(rand::distributions::Alphanumeric)
            .take(size)
            .map(char::from)
            .collect()
    }
}

impl Default for ZKP {
    fn default() -> (r: Self)
        ensures
            rfc_group(r),
    {
        Self::new()
    }
}

} // verus!
