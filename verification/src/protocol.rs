//! The server-side protocol engine: registration, challenge issuance and
//! verification against per-identity state. Its two mappings — identity name
//! to record, and challenge token to identity name — are explicit fields; the
//! caller provides whatever synchronization the deployment needs around a
//! shared instance.
use vstd::prelude::*;

use crate::bignum::{be_nat, big_clone, big_from_bytes_be, big_from_u32, big_to_bytes_be, big_val};
use crate::registry::Registry;
use crate::laws::lemma_completeness;
use crate::zkp::{pow_mod, respond_spec, verify_spec, ZKP};
use vstd::pervasive::unreached;

verus! {

/// The per-identity record: the registration commitments `y1` and `y2`, the
/// ephemeral commitments `r1` and `r2` with the challenge `c` of the most
/// recent challenge attempt, and the unused `s` and `session_id` slots.
pub struct UserAuthInfo {
    pub user_name: String,
    pub y1: num_bigint::BigUint,
    pub y2: num_bigint::BigUint,
    pub r1: num_bigint::BigUint,
    pub r2: num_bigint::BigUint,
    pub c: num_bigint::BigUint,
    pub s: num_bigint::BigUint,
    pub session_id: String,
}

impl Default for UserAuthInfo {
    fn default() -> (r: Self)
        ensures
            r.user_name@ == Seq::<char>::empty(),
            big_val(r.y1) == 0,
            big_val(r.y2) == 0,
            big_val(r.r1) == 0,
            big_val(r.r2) == 0,
            big_val(r.c) == 0,
            big_val(r.s) == 0,
            r.session_id@ == Seq::<char>::empty(),
    {
        UserAuthInfo {
            user_name: String::new(),
            y1: big_from_u32(0),
            y2: big_from_u32(0),
            r1: big_from_u32(0),
            r2: big_from_u32(0),
            c: big_from_u32(0),
            s: big_from_u32(0),
            session_id: String::new(),
        }
    }
}

/// A failed protocol operation: an unknown identity name or challenge token,
/// or a response that did not verify. Each variant carries the offending
/// identifier.
#[derive(Debug)]
pub enum AuthError {
    NotFound(String),
    VerificationFailed(String),
}

pub struct AuthImpl {
    pub zkp: ZKP,
    user_info: Registry<UserAuthInfo>,
    auth_user: Registry<String>,
}

impl AuthImpl {
    /// The group parameters the engine verifies against.
    pub closed spec fn group(&self) -> ZKP {
        self.zkp
    }

    /// The registered identities, by name.
    pub closed spec fn users(&self) -> Map<Seq<char>, UserAuthInfo> {
        self.user_info@
    }

    /// The outstanding challenge tokens, each naming an identity.
    pub closed spec fn auths(&self) -> Map<Seq<char>, String> {
        self.auth_user@
    }

    /// Both registries are well formed, the group constants are usable, and
    /// every outstanding challenge token names a registered identity.
    pub closed spec fn wf(&self) -> bool {
        &&& self.user_info.wf()
        &&& self.auth_user.wf()
        &&& big_val(self.zkp.p) > 1
        &&& big_val(self.zkp.q) > 0
        &&& forall|id: Seq<char>|
            self.auth_user@.contains_key(id) ==> self.user_info@.contains_key(
                self.auth_user@[id]@,
            )
    }

    pub fn new(zkp: ZKP) -> (r: Self)
        requires
            big_val(zkp.p) > 1,
            big_val(zkp.q) > 0,
        ensures
            r.wf(),
            r.group() == zkp,
            r.users() == Map::<Seq<char>, UserAuthInfo>::empty(),
            r.auths() == Map::<Seq<char>, String>::empty(),
    {
        AuthImpl { zkp, user_info: Registry::new(), auth_user: Registry::new() }
    }

    /// Registers the identity: its record is created, or overwritten if it
    /// already exists, with the given commitments and no pending challenge.
    /// Registration is unconditionally accepted; no proof of prior ownership
    /// of the name is required.
    pub fn register(&mut self, user: String, y1: Vec<u8>, y2: Vec<u8>)
        requires
            old(self).wf(),
        ensures
            final(self).wf(),
            final(self).group() == old(self).group(),
            final(self).auths() == old(self).auths(),
            final(self).users().contains_key(user@),
            ({
                let rec = final(self).users()[user@];
                &&& rec.user_name@ == user@
                &&& big_val(rec.y1) == be_nat(y1@)
                &&& big_val(rec.y2) == be_nat(y2@)
                &&& big_val(rec.r1) == 0
                &&& big_val(rec.r2) == 0
                &&& big_val(rec.c) == 0
            }),
            final(self).users() == old(self).users().insert(
                user@,
                final(self).users()[user@],
            ),
    {
        let mut rec = UserAuthInfo::default();
        rec.user_name = user.clone();
        rec.y1 = big_from_bytes_be(&y1);
        rec.y2 = big_from_bytes_be(&y2);
        self.user_info.insert(user, rec);
    }

    /// Issues a challenge with the given challenge value and token, so that a
    /// caller may supply both deterministically. Fails exactly when the
    /// identity is unknown; otherwise the record's ephemeral fields are
    /// overwritten — only this most recent challenge remains valid — and the
    /// token is recorded as naming the identity.
    pub fn create_auth_challenge_with(
        &mut self,
        user: &String,
        r1: Vec<u8>,
        r2: Vec<u8>,
        c: num_bigint::BigUint,
        auth_id: String,
    ) -> (r: Result<(), AuthError>)
        requires
            old(self).wf(),
        ensures
            final(self).wf(),
            final(self).group() == old(self).group(),
            !old(self).users().contains_key(user@) ==> {
                &&& r matches Err(AuthError::NotFound(u)) && u@ == user@
                &&& final(self).users() == old(self).users()
                &&& final(self).auths() == old(self).auths()
            },
            old(self).users().contains_key(user@) ==> {
                &&& r is Ok
                &&& ({
                    let rec = final(self).users()[user@];
                    let prev = old(self).users()[user@];
                    &&& rec.user_name@ == prev.user_name@
                    &&& big_val(rec.y1) == big_val(prev.y1)
                    &&& big_val(rec.y2) == big_val(prev.y2)
                    &&& big_val(rec.r1) == be_nat(r1@)
                    &&& big_val(rec.r2) == be_nat(r2@)
                    &&& big_val(rec.c) == big_val(c)
                })
                &&& final(self).users() == old(self).users().insert(
                    user@,
                    final(self).users()[user@],
                )
                &&& final(self).auths().contains_key(auth_id@)
                &&& final(self).auths()[auth_id@]@ == user@
                &&& final(self).auths() == old(self).auths().insert(
                    auth_id@,
                    final(self).auths()[auth_id@],
                )
            },
    {
        match self.user_info.get(user) {
            None => Err(AuthError::NotFound(user.clone())),
            Some(found) => {
                let rec = UserAuthInfo {
                    user_name: found.user_name.clone(),
                    y1: big_clone(&found.y1),
                    y2: big_clone(&found.y2),
                    r1: big_from_bytes_be(&r1),
                    r2: big_from_bytes_be(&r2),
                    c,
                    s: big_clone(&found.s),
                    session_id: found.session_id.clone(),
                };
                self.user_info.insert(user.clone(), rec);
                self.auth_user.insert(auth_id, user.clone());
                Ok(())
            },
        }
    }

    /// Issues a challenge for the identity: the challenge value is drawn
    /// uniformly below `q` and the token is a random string of twelve
    /// characters. Fails exactly when the identity is unknown; on success the
    /// returned bytes encode the stored challenge value. Token collisions are
    /// not detected: a token equal to an outstanding one replaces that entry,
    /// as the insert in the contract says.
    pub fn create_auth_challenge(&mut self, user: &String, r1: Vec<u8>, r2: Vec<u8>) -> (r: Result<
        (String, Vec<u8>),
        AuthError,
    >)
        requires
            old(self).wf(),
        ensures
            final(self).wf(),
            final(self).group() == old(self).group(),
            !old(self).users().contains_key(user@) ==> {
                &&& r matches Err(AuthError::NotFound(u)) && u@ == user@
                &&& final(self).users() == old(self).users()
                &&& final(self).auths() == old(self).auths()
            },
            old(self).users().contains_key(user@) ==> {
                &&& r matches Ok(pair)
                &&& ({
                    let (auth_id, c_bytes) = pair;
                    let rec = final(self).users()[user@];
                    let prev = old(self).users()[user@];
                    &&& auth_id@.len() == 12
                    &&& be_nat(c_bytes@) < big_val(old(self).group().q)
                    &&& rec.user_name@ == prev.user_name@
                    &&& big_val(rec.y1) == big_val(prev.y1)
                    &&& big_val(rec.y2) == big_val(prev.y2)
                    &&& big_val(rec.r1) == be_nat(r1@)
                    &&& big_val(rec.r2) == be_nat(r2@)
                    &&& big_val(rec.c) == be_nat(c_bytes@)
                    &&& final(self).users() == old(self).users().insert(user@, rec)
                    &&& final(self).auths().contains_key(auth_id@)
                    &&& final(self).auths()[auth_id@]@ == user@
                    &&& final(self).auths() == old(self).auths().insert(
                        auth_id@,
                        final(self).auths()[auth_id@],
                    )
                })
            },
    {
        let c = ZKP::generate_random_below(&self.zkp.q);
        let c_bytes = big_to_bytes_be(&c);
        let auth_id = ZKP::generate_random_string(12);
        let auth_id_out = auth_id.clone();
        match self.create_auth_challenge_with(user, r1, r2, c, auth_id) {
            Ok(()) => Ok((auth_id_out, c_bytes)),
            Err(e) => Err(e),
        }
    }

    /// An honest prover is always accepted: when the record a token resolves
    /// to holds commitments and randoms computed as the protocol prescribes
    /// from a secret `x` and a nonce `k`, it satisfies the verifier's
    /// equations for the response `respond_spec(k, c, x, q)`, so
    /// `verify_auth` answers that response with a session token. This needs
    /// both generators to have multiplicative order dividing `q` modulo `p`.
    pub proof fn lemma_honest_response_accepted(s: AuthImpl, token: Seq<char>, x: nat, k: nat)
        requires
            s.auths().contains_key(token),
            s.users().contains_key(s.auths()[token]@),
            ({
                let g = s.group();
                let rec = s.users()[s.auths()[token]@];
                let p = big_val(g.p);
                let q = big_val(g.q);
                let alpha = big_val(g.alpha);
                let beta = big_val(g.beta);
                &&& p > 1
                &&& q > 0
                &&& x < q
                &&& k < q
                &&& big_val(rec.c) < q
                &&& pow_mod(alpha, q, p) == 1
                &&& pow_mod(beta, q, p) == 1
                &&& big_val(rec.y1) == pow_mod(alpha, x, p)
                &&& big_val(rec.y2) == pow_mod(beta, x, p)
                &&& big_val(rec.r1) == pow_mod(alpha, k, p)
                &&& big_val(rec.r2) == pow_mod(beta, k, p)
            }),
        ensures
            ({
                let g = s.group();
                let rec = s.users()[s.auths()[token]@];
                verify_spec(
                    big_val(rec.r1),
                    big_val(rec.r2),
                    big_val(rec.y1),
                    big_val(rec.y2),
                    big_val(rec.c),
                    respond_spec(k, big_val(rec.c), x, big_val(g.q)),
                    big_val(g.p),
                    big_val(g.alpha),
                    big_val(g.beta),
                )
            }),
    {
        let g = s.group();
        let rec = s.users()[s.auths()[token]@];
        lemma_completeness(
            big_val(g.alpha),
            big_val(g.beta),
            big_val(g.p),
            big_val(g.q),
            x,
            k,
            big_val(rec.c),
        );
    }

    /// Only the most recent challenge of an identity is retained: when a
    /// second challenge is issued for the same identity — `s0` to `s1` with
    /// token `token_a`, then `s1` to `s2` with token `token_b`, each step
    /// related as `create_auth_challenge_with` ensures — the record that
    /// `verify_auth` consults through the first token carries the second
    /// challenge's `r1`, `r2` and `c`. The first token still resolves, so a
    /// stale response is judged against the fresh challenge, not its own.
    pub proof fn lemma_second_challenge_wins(
        s1: AuthImpl,
        s2: AuthImpl,
        user: Seq<char>,
        token_a: Seq<char>,
        token_b: Seq<char>,
        r1b: nat,
        r2b: nat,
        cb: nat,
    )
        requires
            s1.auths().contains_key(token_a),
            s1.auths()[token_a]@ == user,
            s2.users() == s1.users().insert(user, s2.users()[user]),
            big_val(s2.users()[user].r1) == r1b,
            big_val(s2.users()[user].r2) == r2b,
            big_val(s2.users()[user].c) == cb,
            s2.auths() == s1.auths().insert(token_b, s2.auths()[token_b]),
            s2.auths().contains_key(token_b),
            s2.auths()[token_b]@ == user,
        ensures
            s2.auths().contains_key(token_a),
            s2.auths()[token_a]@ == user,
            big_val(s2.users()[s2.auths()[token_a]@].r1) == r1b,
            big_val(s2.users()[s2.auths()[token_a]@].r2) == r2b,
            big_val(s2.users()[s2.auths()[token_a]@].c) == cb,
    {
        if token_a == token_b {
            assert(s2.auths()[token_a] == s2.auths()[token_b]);
        } else {
            assert(s2.auths()[token_a] == s1.auths()[token_a]);
        }
    }

    /// Decides the authentication attempt named by the token: fails with
    /// `NotFound` when the token is unknown, returns a fresh session token of
    /// twelve characters exactly when the response verifies against the
    /// stored record, and fails with `VerificationFailed` otherwise. Stored
    /// state is not changed.
    pub fn verify_auth(&self, auth_id: &String, s: Vec<u8>) -> (r: Result<String, AuthError>)
        requires
            self.wf(),
        ensures
            !self.auths().contains_key(auth_id@) ==> (r matches Err(AuthError::NotFound(u))
                && u@ == auth_id@),
            self.auths().contains_key(auth_id@) ==> {
                let rec = self.users()[self.auths()[auth_id@]@];
                let accepted = verify_spec(
                    big_val(rec.r1),
                    big_val(rec.r2),
                    big_val(rec.y1),
                    big_val(rec.y2),
                    big_val(rec.c),
                    be_nat(s@),
                    big_val(self.group().p),
                    big_val(self.group().alpha),
                    big_val(self.group().beta),
                );
                &&& accepted ==> (r matches Ok(sid) && sid@.len() == 12)
                &&& !accepted ==> (r matches Err(AuthError::VerificationFailed(u)) && u@
                    == auth_id@)
            },
    {
        match self.auth_user.get(auth_id) {
            None => Err(AuthError::NotFound(auth_id.clone())),
            Some(user_name) => {
                match self.user_info.get(user_name) {
                    None => {
                        proof {
                            assert(self.user_info@.contains_key(self.auth_user@[auth_id@]@));
                        }
                        unreached()
                    },
                    Some(rec) => {
                        let s_big = big_from_bytes_be(&s);
                        if self.zkp.verify(&rec.r1, &rec.r2, &rec.y1, &rec.y2, &rec.c, &s_big) {
                            Ok(ZKP::generate_random_string(12))
                        } else {
                            Err(AuthError::VerificationFailed(auth_id.clone()))
                        }
                    },
                }
            },
        }
    }
}

} // verus!
