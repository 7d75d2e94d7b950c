use vstd::prelude::*;
use crate::error::{HashFault, UBaseErr};
use crate::password::{
    bcrypt_verdict, check_password, default_cost, encodes_hash, hash_fault_for, hash_password, HASH_LEN, MAX_COST,
    MIN_COST,
};

verus! {

/// A store kept in one database file, with the work factor that new password
/// hashes are made with.
pub struct UserBase {
    fname: String,
    cost: u32,
}

/// A row of the users table, ready to be inserted: the password is only there
/// as its bcrypt hash.
pub struct NewUser {
    pub u_name: String,
    pub p_word: String,
}

/// A row of the transactions table, ready to be inserted; its timestamp is
/// assigned by the database at insertion.
pub struct NewTransfer {
    pub u_from: String,
    pub u_to: String,
    pub t_amount: i64,
}

/// Both the username and the password must be non-empty.
pub open spec fn valid_credentials(u_name: Seq<char>, p_word: Seq<char>) -> bool {
    u_name.len() > 0 && p_word.len() > 0
}

/// `row` registers `u_name` with `p_word`: it holds the username and an encoded
/// hash that bcrypt verifies against the password.
pub open spec fn registers(u_name: Seq<char>, p_word: Seq<char>, row: NewUser) -> bool {
    &&& row.u_name@ == u_name
    &&& row.p_word@.len() == HASH_LEN
    &&& bcrypt_verdict(p_word, row.p_word@) == Some(true)
}

/// A transfer is recorded only for a positive amount between two different users.
pub open spec fn valid_transfer(u_from: Seq<char>, u_to: Seq<char>, amount: int) -> bool {
    amount > 0 && u_from != u_to
}

/// The stored hash of a user, as read back from the users table, if any.
pub open spec fn stored_view(stored_hash: Option<&str>) -> Option<Seq<char>> {
    match stored_hash {
        Some(h) => Some(h@),
        None => None,
    }
}

/// What checking `p_word` against the stored hash of a user reports: an unknown
/// user is an invalid credential, a hash that bcrypt cannot read (one that is
/// not 60 characters long, among others) is a hashing failure, and otherwise the
/// answer is bcrypt's.
pub open spec fn verify_outcome(
    r: Result<bool, UBaseErr>,
    p_word: Seq<char>,
    stored: Option<Seq<char>>,
) -> bool {
    match stored {
        None => r is Err && r->Err_0 is InvalidCredential,
        Some(h) => if h.len() != HASH_LEN {
            r is Err && r->Err_0 is HashingFailure
        } else {
            match bcrypt_verdict(p_word, h) {
                Some(b) => r == Ok::<bool, UBaseErr>(b),
                None => r is Err && r->Err_0 is HashingFailure,
            }
        },
    }
}

impl UserBase {
    /// A store in the file `fname`, hashing with bcrypt's default work factor.
    pub fn new(fname: &str) -> (r: UserBase)
        ensures
            r.fname_view() == fname@,
            r.cost_view() == 12,
    {
        UserBase { fname: fname.to_owned(), cost: default_cost() }
    }

    /// A store in the file `fname`, hashing with the work factor `cost`.
    pub fn with_cost(fname: &str, cost: u32) -> (r: UserBase)
        ensures
            r.fname_view() == fname@,
            r.cost_view() == cost,
    {
        UserBase { fname: fname.to_owned(), cost }
    }

    pub closed spec fn fname_view(&self) -> Seq<char> {
        self.fname@
    }

    pub closed spec fn cost_view(&self) -> u32 {
        self.cost
    }

    /// Path of the database file.
    pub fn fname(&self) -> (r: &str)
        ensures
            r@ == self.fname_view(),
    {
        self.fname.as_str()
    }

    /// Work factor of new password hashes.
    pub fn cost(&self) -> (r: u32)
        ensures
            r == self.cost_view(),
    {
        self.cost
    }

    /// Prepares the registration of a user: checks the credentials, then hashes
    /// the password with a fresh salt and the store's work factor. An empty
    /// username or password is refused before anything is hashed; a work factor
    /// that bcrypt refuses, or a failure to draw a salt, is a hashing failure.
    pub fn add_user(&self, u_name: &str, p_word: &str) -> (r: Result<NewUser, UBaseErr>)
        ensures
            !valid_credentials(u_name@, p_word@) <==> (r is Err && r->Err_0 is InvalidCredential),
            valid_credentials(u_name@, p_word@) && !(MIN_COST <= self.cost_view() <= MAX_COST)
                ==> (r is Err && r->Err_0 is HashingFailure),
            r is Err ==> (r->Err_0 is InvalidCredential || r->Err_0 is HashingFailure),
            r is Err && r->Err_0 is HashingFailure
                ==> hash_fault_for(r->Err_0->HashingFailure_0, self.cost_view()),
            r is Ok ==> registers(u_name@, p_word@, r->Ok_0),
            r is Ok ==> encodes_hash(r->Ok_0.p_word@, self.cost_view() as int),
    {
        if u_name.is_empty() || p_word.is_empty() {
            return Err(UBaseErr::InvalidCredential);
        }
        match hash_password(p_word, self.cost) {
            Ok(hash) => Ok(NewUser { u_name: u_name.to_owned(), p_word: hash }),
            Err(f) => Err(UBaseErr::HashingFailure(f)),
        }
    }

    /// Prepares the recording of a transfer of `amount` from `u_from` to `u_to`.
    /// A non-positive amount is refused first, then a transfer to oneself; what is
    /// refused yields no row to insert.
    pub fn pay(&self, u_from: &str, u_to: &str, amount: i64) -> (r: Result<NewTransfer, UBaseErr>)
        ensures
            amount <= 0 <==> (r is Err && r->Err_0 is InvalidAmount),
            amount > 0 && u_from@ == u_to@ <==> (r is Err && r->Err_0 is SelfTransfer),
            r is Ok <==> valid_transfer(u_from@, u_to@, amount as int),
            r is Ok ==> r->Ok_0.u_from@ == u_from@ && r->Ok_0.u_to@ == u_to@
                && r->Ok_0.t_amount == amount,
    {
        if amount <= 0 {
            return Err(UBaseErr::InvalidAmount);
        }
        let from = u_from.to_owned();
        let to = u_to.to_owned();
        if from == to {
            return Err(UBaseErr::SelfTransfer);
        }
        Ok(NewTransfer { u_from: from, u_to: to, t_amount: amount })
    }

    /// Checks a password against the hash stored for a user (`None` where the
    /// user is unknown), with bcrypt's constant-time comparison.
    pub fn verify(&self, p_word: &str, stored_hash: Option<&str>) -> (r: Result<bool, UBaseErr>)
        ensures
            verify_outcome(r, p_word@, stored_view(stored_hash)),
    {
        match stored_hash {
            None => Err(UBaseErr::InvalidCredential),
            Some(h) => verdict_of(check_password(p_word, h)),
        }
    }
}

/// Turns what bcrypt's verification returned into the store's answer: its
/// verdict as it is, or its failure as a hashing failure.
pub fn verdict_of(outcome: Result<bool, bcrypt::BcryptError>) -> (r: Result<bool, UBaseErr>)
    ensures
        match outcome {
            Ok(b) => r == Ok::<bool, UBaseErr>(b),
            Err(e) => r == Err::<bool, UBaseErr>(UBaseErr::HashingFailure(HashFault::Other(e))),
        },
{
    match outcome {
        Ok(b) => Ok(b),
        Err(e) => Err(UBaseErr::from(e)),
    }
}

/// A password that was registered verifies against the hash stored for it.
pub proof fn lemma_register_then_verify(
    u_name: Seq<char>,
    p_word: Seq<char>,
    row: NewUser,
    r: Result<bool, UBaseErr>,
)
    requires
        registers(u_name, p_word, row),
        verify_outcome(r, p_word, Some(row.p_word@)),
    ensures
        r == Ok::<bool, UBaseErr>(true),
{
}

/// Two registrations with the same password, under two usernames, both verify
/// against that password, whichever salts were drawn.
pub proof fn lemma_same_password_both_verify(
    u1: Seq<char>,
    u2: Seq<char>,
    p_word: Seq<char>,
    row1: NewUser,
    row2: NewUser,
    r1: Result<bool, UBaseErr>,
    r2: Result<bool, UBaseErr>,
)
    requires
        u1 != u2,
        registers(u1, p_word, row1),
        registers(u2, p_word, row2),
        verify_outcome(r1, p_word, Some(row1.p_word@)),
        verify_outcome(r2, p_word, Some(row2.p_word@)),
    ensures
        r1 == Ok::<bool, UBaseErr>(true),
        r2 == Ok::<bool, UBaseErr>(true),
{
    lemma_register_then_verify(u1, p_word, row1, r1);
    lemma_register_then_verify(u2, p_word, row2, r2);
}

} // verus!
