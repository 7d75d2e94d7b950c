use vstd::prelude::*;

verus! {

/// Primary SQLite result code of a violated constraint.
pub const SQLITE_CONSTRAINT: isize = 19;

/// Extended SQLite result code of a violated `UNIQUE` constraint.
pub const SQLITE_CONSTRAINT_UNIQUE: isize = 2067;

/// How bcrypt failed.
#[derive(Debug)]
pub enum HashFault {
    /// bcrypt refused the work factor, which lies outside 4..=31.
    CostNotAllowed(u32),
    /// No salt could be drawn from the operating system.
    SaltUnavailable(bcrypt::BcryptError),
    /// Any other failure, as bcrypt reported it (a malformed stored hash, say).
    Other(bcrypt::BcryptError),
}

/// Everything that can go wrong in the store, one variant per kind of failure.
#[derive(Debug)]
pub enum UBaseErr {
    /// The username is already registered.
    DuplicateUser,
    /// A credential was refused: an empty username or password, or an unknown user.
    InvalidCredential,
    /// A transfer amount that is not strictly positive.
    InvalidAmount,
    /// A transfer whose payer and payee are the same user.
    SelfTransfer,
    /// The password-hashing primitive failed.
    HashingFailure(HashFault),
    /// Any other failure of the database engine, with its code and message.
    StorageFailure { code: Option<isize>, message: Option<String> },
}

/// A result code that reports a violated constraint, in primary or extended form.
pub open spec fn is_constraint_code(code: Option<isize>) -> bool {
    code == Some(SQLITE_CONSTRAINT) || code == Some(SQLITE_CONSTRAINT_UNIQUE)
}

impl UBaseErr {
    /// Classifies a database failure of an insert into the users table. There the
    /// only constraint is the uniqueness of the username, so a constraint
    /// violation means that the user exists already.
    pub fn from_user_insert(code: Option<isize>, message: Option<String>) -> (r: UBaseErr)
        ensures
            is_constraint_code(code) ==> r is DuplicateUser,
            !is_constraint_code(code) ==> r == (UBaseErr::StorageFailure { code, message }),
    {
        let constraint = match code {
            Some(c) => c == SQLITE_CONSTRAINT || c == SQLITE_CONSTRAINT_UNIQUE,
            None => false,
        };
        if constraint {
            UBaseErr::DuplicateUser
        } else {
            UBaseErr::StorageFailure { code, message }
        }
    }

    /// Wraps any other database failure, unclassified.
    pub fn from_storage(code: Option<isize>, message: Option<String>) -> (r: UBaseErr)
        ensures
            r == (UBaseErr::StorageFailure { code, message }),
    {
        UBaseErr::StorageFailure { code, message }
    }

    /// True for the failures of the database engine.
    pub fn is_storage_failure(&self) -> (r: bool)
        ensures
            r == self is StorageFailure,
    {
        match self {
            UBaseErr::StorageFailure { .. } => true,
            _ => false,
        }
    }
}

#[verifier::external_type_specification]
#[verifier::external_body]
pub struct ExBcryptError(bcrypt::BcryptError);

impl From<bcrypt::BcryptError> for UBaseErr {
    fn from(e: bcrypt::BcryptError) -> (r: UBaseErr) {
        UBaseErr::HashingFailure(HashFault::Other(e))
    }
}

impl vstd::std_specs::convert::FromSpecImpl<bcrypt::BcryptError> for UBaseErr {
    open spec fn obeys_from_spec() -> bool {
        true
    }

    open spec fn from_spec(e: bcrypt::BcryptError) -> UBaseErr {
        UBaseErr::HashingFailure(HashFault::Other(e))
    }
}

} // verus!
