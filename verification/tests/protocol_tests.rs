use num_bigint::BigUint;
use zkp_chaum_pedersen::protocol::{AuthError, AuthImpl};
use zkp_chaum_pedersen::zkp::ZKP;

fn toy_zkp() -> ZKP {
    ZKP {
        p: BigUint::from(23u32),
        q: BigUint::from(11u32),
        alpha: BigUint::from(4u32),
        beta: BigUint::from(9u32),
    }
}

#[test]
fn test_happy_path_issues_session() {
    let zkp = toy_zkp();
    let mut auth = AuthImpl::new(toy_zkp());

    let x = BigUint::from(6u32);
    let y1 = ZKP::exponentiate(&zkp.alpha, &x, &zkp.p);
    let y2 = ZKP::exponentiate(&zkp.beta, &x, &zkp.p);
    auth.register("alice".to_string(), y1.to_bytes_be(), y2.to_bytes_be());

    let k = BigUint::from(7u32);
    let r1 = ZKP::exponentiate(&zkp.alpha, &k, &zkp.p);
    let r2 = ZKP::exponentiate(&zkp.beta, &k, &zkp.p);
    let (auth_id, c_bytes) = auth
        .create_auth_challenge(&"alice".to_string(), r1.to_bytes_be(), r2.to_bytes_be())
        .expect("registered identity must be challengeable");

    let c = BigUint::from_bytes_be(&c_bytes);
    let s = zkp.solve(&k, &c, &x);
    let session_id = auth
        .verify_auth(&auth_id, s.to_bytes_be())
        .expect("a correct response must be accepted");
    assert!(!session_id.is_empty());
}

#[test]
fn test_create_challenge_unknown_user_not_found() {
    let mut auth = AuthImpl::new(toy_zkp());
    let result = auth.create_auth_challenge(
        &"nobody".to_string(),
        vec![8u8],
        vec![4u8],
    );
    assert!(matches!(result, Err(AuthError::NotFound(u)) if u == "nobody"));
}

#[test]
fn test_verify_auth_unknown_id_not_found() {
    let auth = AuthImpl::new(toy_zkp());
    let result = auth.verify_auth(&"no-such-token".to_string(), vec![5u8]);
    assert!(matches!(result, Err(AuthError::NotFound(u)) if u == "no-such-token"));
}

#[test]
fn test_verify_auth_tampered_response_fails() {
    let zkp = toy_zkp();
    let mut auth = AuthImpl::new(toy_zkp());

    let x = BigUint::from(6u32);
    let y1 = ZKP::exponentiate(&zkp.alpha, &x, &zkp.p);
    let y2 = ZKP::exponentiate(&zkp.beta, &x, &zkp.p);
    auth.register("alice".to_string(), y1.to_bytes_be(), y2.to_bytes_be());

    let k = BigUint::from(7u32);
    let r1 = ZKP::exponentiate(&zkp.alpha, &k, &zkp.p);
    let r2 = ZKP::exponentiate(&zkp.beta, &k, &zkp.p);
    auth.create_auth_challenge_with(
        &"alice".to_string(),
        r1.to_bytes_be(),
        r2.to_bytes_be(),
        BigUint::from(4u32),
        "token-a".to_string(),
    )
    .expect("registered identity must be challengeable");

    // The correct response for x = 6, k = 7, c = 4 is s = 5; send 6 instead.
    let result = auth.verify_auth(&"token-a".to_string(), vec![6u8]);
    assert!(matches!(result, Err(AuthError::VerificationFailed(u)) if u == "token-a"));
}

#[test]
fn test_stale_challenge_fails_and_fresh_succeeds() {
    let zkp = toy_zkp();
    let mut auth = AuthImpl::new(toy_zkp());

    let x = BigUint::from(6u32);
    let y1 = ZKP::exponentiate(&zkp.alpha, &x, &zkp.p);
    let y2 = ZKP::exponentiate(&zkp.beta, &x, &zkp.p);
    auth.register("alice".to_string(), y1.to_bytes_be(), y2.to_bytes_be());

    let k_a = BigUint::from(7u32);
    let c_a = BigUint::from(4u32);
    auth.create_auth_challenge_with(
        &"alice".to_string(),
        ZKP::exponentiate(&zkp.alpha, &k_a, &zkp.p).to_bytes_be(),
        ZKP::exponentiate(&zkp.beta, &k_a, &zkp.p).to_bytes_be(),
        c_a.clone(),
        "token-a".to_string(),
    )
    .expect("first challenge");

    // A second challenge replaces the stored (r1, r2, c).
    let k_b = BigUint::from(3u32);
    let c_b = BigUint::from(9u32);
    auth.create_auth_challenge_with(
        &"alice".to_string(),
        ZKP::exponentiate(&zkp.alpha, &k_b, &zkp.p).to_bytes_be(),
        ZKP::exponentiate(&zkp.beta, &k_b, &zkp.p).to_bytes_be(),
        c_b.clone(),
        "token-b".to_string(),
    )
    .expect("second challenge");

    // A response built from the first, now-stale challenge must be rejected,
    // even through its own token.
    let s_a = zkp.solve(&k_a, &c_a, &x);
    let stale = auth.verify_auth(&"token-a".to_string(), s_a.to_bytes_be());
    assert!(matches!(stale, Err(AuthError::VerificationFailed(_))));

    // A response built from the most recent challenge is accepted.
    let s_b = zkp.solve(&k_b, &c_b, &x);
    let fresh = auth.verify_auth(&"token-b".to_string(), s_b.to_bytes_be());
    assert!(fresh.is_ok());
}

#[test]
fn test_register_overwrites_commitments() {
    let zkp = toy_zkp();
    let mut auth = AuthImpl::new(toy_zkp());

    // Register with one secret, then overwrite the registration with another;
    // only proofs for the latest secret are accepted.
    let x_old = BigUint::from(3u32);
    auth.register(
        "alice".to_string(),
        ZKP::exponentiate(&zkp.alpha, &x_old, &zkp.p).to_bytes_be(),
        ZKP::exponentiate(&zkp.beta, &x_old, &zkp.p).to_bytes_be(),
    );
    let x_new = BigUint::from(6u32);
    auth.register(
        "alice".to_string(),
        ZKP::exponentiate(&zkp.alpha, &x_new, &zkp.p).to_bytes_be(),
        ZKP::exponentiate(&zkp.beta, &x_new, &zkp.p).to_bytes_be(),
    );

    let k = BigUint::from(7u32);
    auth.create_auth_challenge_with(
        &"alice".to_string(),
        ZKP::exponentiate(&zkp.alpha, &k, &zkp.p).to_bytes_be(),
        ZKP::exponentiate(&zkp.beta, &k, &zkp.p).to_bytes_be(),
        BigUint::from(4u32),
        "token-a".to_string(),
    )
    .expect("challenge after re-registration");

    let with_old = auth.verify_auth(
        &"token-a".to_string(),
        zkp.solve(&k, &BigUint::from(4u32), &x_old).to_bytes_be(),
    );
    assert!(matches!(with_old, Err(AuthError::VerificationFailed(_))));

    let with_new = auth.verify_auth(
        &"token-a".to_string(),
        zkp.solve(&k, &BigUint::from(4u32), &x_new).to_bytes_be(),
    );
    assert!(with_new.is_ok());
}
