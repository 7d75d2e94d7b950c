use vstd::prelude::*;
use crate::error::HashFault;

verus! {

/// Smallest and largest work factor that bcrypt accepts.
pub const MIN_COST: u32 = 4;

pub const MAX_COST: u32 = 31;

/// Length of a bcrypt hash in its encoded form.
pub const HASH_LEN: usize = 60;

/// What bcrypt's verification makes of a password and an encoded hash:
/// `Some(true)` for a match, `Some(false)` for a mismatch, `None` where it
/// fails (a malformed hash).
pub uninterp spec fn bcrypt_verdict(p_word: Seq<char>, hash: Seq<char>) -> Option<bool>;

/// The work factor written in an encoded hash, as two decimal digits after
/// the version.
pub open spec fn encoded_cost(h: Seq<char>) -> int {
    (h[4] as int - '0' as int) * 10 + (h[5] as int - '0' as int)
}

/// `h` is a bcrypt hash in version 2b, made with the work factor `cost`:
/// `$2b$`, two digits of cost, `$`, then the salt and the digest.
pub open spec fn encodes_hash(h: Seq<char>, cost: int) -> bool {
    &&& h.len() == HASH_LEN
    &&& h.subrange(0, 4) == "$2b$"@
    &&& h[6] == '$'
    &&& encoded_cost(h) == cost
}

/// The failures that hashing with the work factor `cost` can meet: the cost
/// refused, where it is out of range, or no salt to be had.
pub open spec fn hash_fault_for(f: HashFault, cost: u32) -> bool {
    ||| f == HashFault::CostNotAllowed(cost) && !(MIN_COST <= cost <= MAX_COST)
    ||| f is SaltUnavailable
}

/// Relies on bcrypt::DEFAULT_COST, the work factor bcrypt recommends (12).
#[verifier::external_body]
pub(crate) fn default_cost() -> (r: u32)
    ensures
        r == 12,
{
    bcrypt::DEFAULT_COST
}

/// Relies on bcrypt::hash: it draws a fresh salt from the OS, refuses a cost
/// outside 4..=31 (reporting that cost), fails otherwise only where no salt
/// could be drawn, and returns the 60-character encoding in version 2b of cost
/// (two digits), salt and digest, which bcrypt::verify accepts for the same
/// password.
#[verifier::external_body]
pub(crate) fn hash_password(p_word: &str, cost: u32) -> (r: Result<String, HashFault>)
    ensures
        !(MIN_COST <= cost <= MAX_COST) ==> r is Err,
        r is Err ==> hash_fault_for(r->Err_0, cost),
        r is Ok ==> encodes_hash(r->Ok_0@, cost as int),
        r is Ok ==> bcrypt_verdict(p_word@, r->Ok_0@) == Some(true),
{
    match bcrypt::hash(p_word, cost) {
        Ok(h) => Ok(h),
        Err(bcrypt::BcryptError::CostNotAllowed(c)) => Err(HashFault::CostNotAllowed(c)),
        Err(e) => Err(HashFault::SaltUnavailable(e)),
    }
}

/// Relies on bcrypt::verify: it recomputes the digest of the password with the
/// cost and salt read from the hash and compares in constant time; it fails on
/// a hash that is not 60 characters long.
#[verifier::external_body]
pub(crate) fn check_password(p_word: &str, hash: &str) -> (r: Result<bool, bcrypt::BcryptError>)
    ensures
        r is Ok <==> bcrypt_verdict(p_word@, hash@) is Some,
        r is Ok ==> bcrypt_verdict(p_word@, hash@) == Some(r->Ok_0),
        hash@.len() != HASH_LEN ==> r is Err,
{
    bcrypt::verify(p_word, hash)
}

} // verus!
