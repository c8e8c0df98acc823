//! Numbers of any size: the literals of untyped integer expressions and the
//! constants of the field.
//!
//! They are `BigUint`s, and everything that is done with one is done by
//! `num_bigint`. What is stated of its functions here is taken on trust.

use crate::text::{decimal, lemma_hexadecimal_reads_back, u128_from_hex, written};
use num_bigint::BigUint;
use vstd::prelude::*;
use vstd::string::*;

verus! {

/// `num_bigint::BigUint`, taken as it is: a natural number of any size.
#[verifier::external_type_specification]
#[verifier::external_body]
pub struct ExBigUint(BigUint);

/// The natural number that a `BigUint` holds. Nothing is known of it but
/// what the functions below say.
pub uninterp spec fn magnitude(b: BigUint) -> nat;

/// `BigUint::from(u128)`: the result holds exactly the given number.
#[verifier::external_body]
pub(crate) fn big_from_u128(v: u128) -> (b: BigUint)
    ensures
        magnitude(b) == v,
{
    BigUint::from(v)
}

/// `BigUint`'s `<=` (its `PartialOrd::le`): compares the two numbers held.
#[verifier::external_body]
pub(crate) fn big_le(a: &BigUint, b: &BigUint) -> (r: bool)
    ensures
        r == (magnitude(*a) <= magnitude(*b)),
{
    a <= b
}

/// `BigUint::to_str_radix`: the number written in the given base, with the
/// digits `0`-`9` and `a`-`z`, without leading zeros. It panics on a base
/// that is not from 2 to 36.
#[verifier::external_body]
pub(crate) fn big_to_str_radix(b: &BigUint, radix: u32) -> (s: String)
    requires
        2 <= radix <= 36,
    ensures
        s@ == written(magnitude(*b), radix as nat),
{
    b.to_str_radix(radix)
}

/// The number in decimal.
pub fn big_to_decimal(b: &BigUint) -> (s: String)
    ensures
        s@ == decimal(magnitude(*b)),
{
    big_to_str_radix(b, 10)
}

/// Whether the number is at most the bound.
pub fn at_most(b: &BigUint, bound: u128) -> (r: bool)
    ensures
        r == (magnitude(*b) <= bound),
{
    let limit = big_from_u128(bound);
    big_le(b, &limit)
}

/// The number as a `u128`, if it is small enough to be one. It is written
/// out in hexadecimal and read back.
pub fn to_u128(b: &BigUint) -> (r: Option<u128>)
    ensures
        r == (if magnitude(*b) <= u128::MAX {
            Some(magnitude(*b) as u128)
        } else {
            None
        }),
{
    let text = big_to_str_radix(b, 16);
    proof {
        lemma_hexadecimal_reads_back(magnitude(*b));
    }
    u128_from_hex(text.as_str())
}

} // verus!
