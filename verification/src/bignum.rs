//! Arbitrary-precision unsigned integers, modelled by the natural number they
//! denote. The arithmetic itself is done by `num_bigint::BigUint`; every call
//! into it goes through a wrapper below whose contract states the result over
//! `big_val`, the denoted natural number.
use vstd::prelude::*;

verus! {

#[verifier::external_type_specification]
#[verifier::external_body]
pub struct ExBigUint(num_bigint::BigUint);

/// The canonical big-endian byte representation of a `BigUint`: no leading
/// zero byte, except that zero itself is the single byte 0.
pub uninterp spec fn big_digits(b: num_bigint::BigUint) -> Seq<u8>;

/// The value denoted by a big-endian sequence of bytes: the first byte is the
/// most significant.
pub open spec fn be_nat(s: Seq<u8>) -> nat
    decreases s.len(),
{
    if s.len() == 0 {
        0
    } else {
        be_nat(s.drop_last()) * 256 + s.last() as nat
    }
}

/// The natural number a `BigUint` stands for.
pub open spec fn big_val(b: num_bigint::BigUint) -> nat {
    be_nat(big_digits(b))
}

pub open spec fn is_hex_digit(c: char) -> bool {
    let v = c as int;
    (48 <= v && v <= 57) || (65 <= v && v <= 70) || (97 <= v && v <= 102)
}

pub open spec fn hex_digit_val(c: char) -> nat {
    let v = c as int;
    if 48 <= v && v <= 57 {
        (v - 48) as nat
    } else if 65 <= v && v <= 70 {
        (v - 55) as nat
    } else if 97 <= v && v <= 102 {
        (v - 87) as nat
    } else {
        0
    }
}

/// The value denoted by a big-endian sequence of hexadecimal digits.
pub open spec fn hex_nat(s: Seq<char>) -> nat
    decreases s.len(),
{
    if s.len() == 0 {
        0
    } else {
        hex_nat(s.drop_last()) * 16 + hex_digit_val(s.last())
    }
}

/// Relies on `BigUint::from_bytes_be`: the bytes are read big-endian, leading
/// zeros are accepted, and an empty slice gives zero.
#[verifier::external_body]
pub(crate) fn big_from_bytes_be(bytes: &Vec<u8>) -> (r: num_bigint::BigUint)
    ensures
        big_val(r) == be_nat(bytes@),
{
    num_bigint::BigUint::from_bytes_be(bytes)
}

/// Relies on `BigUint::to_bytes_be`: the canonical big-endian bytes, a single
/// zero byte for zero.
#[verifier::external_body]
pub(crate) fn big_to_bytes_be(b: &num_bigint::BigUint) -> (r: Vec<u8>)
    ensures
        r@ == big_digits(*b),
        r@.len() >= 1,
{
    b.to_bytes_be()
}

/// Relies on `BigUint::from_str_radix` with radix 16: on a nonempty string of
/// hexadecimal digits it returns the denoted value. On other strings it can
/// fail, so they are excluded here.
#[verifier::external_body]
pub(crate) fn big_from_hex(s: &str) -> (r: num_bigint::BigUint)
    requires
        s@.len() > 0,
        forall|i: int| 0 <= i < s@.len() ==> is_hex_digit(s@[i]),
    ensures
        big_val(r) == hex_nat(s@),
{
    <num_bigint::BigUint as num_traits::Num>::from_str_radix(s, 16).expect("valid hex digits")
}

/// Relies on `Mul` for `&BigUint`: exact product.
#[verifier::external_body]
pub(crate) fn big_mul_val(a: &num_bigint::BigUint, b: &num_bigint::BigUint) -> (r:
    num_bigint::BigUint)
    ensures
        big_val(r) == big_val(*a) * big_val(*b),
{
    a * b
}

/// Relies on `Sub` for `&BigUint`: exact difference; it panics when the
/// subtrahend is larger, so that case is excluded here.
#[verifier::external_body]
pub(crate) fn big_sub_val(a: &num_bigint::BigUint, b: &num_bigint::BigUint) -> (r:
    num_bigint::BigUint)
    requires
        big_val(*b) <= big_val(*a),
    ensures
        big_val(r) == big_val(*a) - big_val(*b),
{
    a - b
}

/// Relies on `Rem` for `&BigUint`: exact remainder; division by zero panics,
/// so a zero modulus is excluded here.
#[verifier::external_body]
pub(crate) fn big_rem_val(a: &num_bigint::BigUint, m: &num_bigint::BigUint) -> (r:
    num_bigint::BigUint)
    requires
        big_val(*m) > 0,
    ensures
        big_val(r) == big_val(*a) % big_val(*m),
{
    a % m
}

/// Relies on `PartialOrd` for `BigUint`, which orders by magnitude.
#[verifier::external_body]
pub(crate) fn big_ge(a: &num_bigint::BigUint, b: &num_bigint::BigUint) -> (r: bool)
    ensures
        r == (big_val(*a) >= big_val(*b)),
{
    a >= b
}

/// Relies on `PartialEq` for `BigUint`, which compares by magnitude.
#[verifier::external_body]
pub(crate) fn big_eq(a: &num_bigint::BigUint, b: &num_bigint::BigUint) -> (r: bool)
    ensures
        r == (big_val(*a) == big_val(*b)),
{
    a == b
}

/// Relies on `Clone` for `BigUint`: the copy denotes the same value, so its
/// canonical bytes are the same.
#[verifier::external_body]
pub(crate) fn big_clone(b: &num_bigint::BigUint) -> (r: num_bigint::BigUint)
    ensures
        big_digits(r) == big_digits(*b),
{
    b.clone()
}

/// Relies on `BigUint::from(u32)`: the denoted value is the argument.
#[verifier::external_body]
pub(crate) fn big_from_u32(v: u32) -> (r: num_bigint::BigUint)
    ensures
        big_val(r) == v as nat,
{
    num_bigint::BigUint::from(v)
}

} // verus!
