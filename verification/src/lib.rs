//! A Chaum-Pedersen Sigma protocol over a prime-order subgroup of the
//! multiplicative group of integers modulo a prime, together with the
//! server-side engine that sequences registration, challenge issuance and
//! verification.
pub mod bignum;
pub mod laws;
pub mod protocol;
pub mod registry;
pub mod zkp;
