use crate::util::db_util::digit;
use vstd::prelude::*;

verus! {

/// What `bcrypt::verify` says of a password and a stored hash: whether the
/// hash is one of the password, or `None` where the hash cannot be read.
pub uninterp spec fn bcrypt_verified(password: Seq<char>, hash: Seq<char>) -> Option<bool>;

/// `bcrypt::verify` reads cost and salt out of `hash`, hashes `password`
/// with them and compares. The answer depends on the two texts alone; a
/// text that is no bcrypt hash gives `None`.
#[verifier::external_body]
pub(crate) fn password_matches(password: &str, hash: &str) -> (verdict: Option<bool>)
    ensures
        verdict == bcrypt_verified(password@, hash@),
{
    bcrypt::verify(password, hash).ok()
}

/// `hash` is a bcrypt hash text that names `cost` as its work factor: 60
/// characters, of which the fifth and sixth are the cost in two decimal
/// digits (`$2b$12$...` for the cost 12).
pub open spec fn names_cost(hash: Seq<char>, cost: u32) -> bool {
    &&& hash.len() == 60
    &&& hash[4] == digit(cost as int / 10)
    &&& hash[5] == digit(cost as int % 10)
}

/// `bcrypt::hash` hashes `password` at the given cost with a salt drawn at
/// random, so two calls give different texts. Whatever text comes back is
/// a hash of `password`, so that `bcrypt::verify` accepts the pair, and it
/// is written in the form `$2b$`, the cost in two digits, `$`, salt and
/// hash. `None` is a failure of the call (a cost outside 4..=31, or no
/// randomness to be had).
#[verifier::external_body]
pub(crate) fn password_hash(password: &str, cost: u32) -> (hashed: Option<String>)
    ensures
        hashed matches Some(hash) ==> bcrypt_verified(password@, hash@) == Some(true),
        hashed matches Some(hash) ==> names_cost(hash@, cost),
{
    bcrypt::hash(password, cost).ok()
}

} // verus!
