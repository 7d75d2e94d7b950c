use userbase::error::{HashFault, UBaseErr};
use userbase::schema::{insert_transfer_sql, insert_user_sql, schema_sql, select_hash_sql};
use userbase::store::verdict_of;
use userbase::UserBase;

fn quick_store() -> UserBase {
    UserBase::with_cost("data/users.db", 4)
}

#[test]
fn new_store_uses_default_cost() {
    let ub = UserBase::new("data/users.db");
    assert_eq!(ub.fname(), "data/users.db");
    assert_eq!(ub.cost(), 12);
    let custom = UserBase::with_cost("other.db", 5);
    assert_eq!(custom.fname(), "other.db");
    assert_eq!(custom.cost(), 5);
}

#[test]
fn add_user_hashes_the_password() {
    let ub = quick_store();
    let row = ub.add_user("new_user", "new_pass").unwrap();
    assert_eq!(row.u_name, "new_user");
    assert_eq!(row.p_word.len(), 60);
    assert_ne!(row.p_word, "new_pass");
    assert!(row.p_word.starts_with("$2b$04$"));
}

#[test]
fn add_user_encodes_the_store_cost() {
    let ub = UserBase::with_cost("data/users.db", 5);
    let row = ub.add_user("dave", "hunter22").unwrap();
    assert_eq!(&row.p_word[0..7], "$2b$05$");
    assert_eq!(row.p_word.len(), 60);
}

#[test]
fn add_user_with_default_cost() {
    let ub = UserBase::new("data/users.db");
    let row = ub.add_user("new_user", "new_pass").unwrap();
    assert!(row.p_word.starts_with("$2b$12$"));
    assert_eq!(ub.verify("new_pass", Some(&row.p_word)).unwrap(), true);
}

#[test]
fn add_user_rejects_empty_credentials() {
    let ub = quick_store();
    assert!(matches!(ub.add_user("", "secret"), Err(UBaseErr::InvalidCredential)));
    assert!(matches!(ub.add_user("bob", ""), Err(UBaseErr::InvalidCredential)));
    assert!(matches!(ub.add_user("", ""), Err(UBaseErr::InvalidCredential)));
}

#[test]
fn add_user_rejects_cost_out_of_range() {
    let low = UserBase::with_cost("f.db", 3);
    assert!(matches!(
        low.add_user("bob", "secret"),
        Err(UBaseErr::HashingFailure(HashFault::CostNotAllowed(3)))
    ));
    let high = UserBase::with_cost("f.db", 32);
    assert!(matches!(
        high.add_user("bob", "secret"),
        Err(UBaseErr::HashingFailure(HashFault::CostNotAllowed(32)))
    ));
}

#[test]
fn register_then_verify() {
    let ub = quick_store();
    let row = ub.add_user("carol", "correct horse").unwrap();
    assert_eq!(ub.verify("correct horse", Some(&row.p_word)).unwrap(), true);
    assert_eq!(ub.verify("correct horsf", Some(&row.p_word)).unwrap(), false);
    assert_eq!(ub.verify("", Some(&row.p_word)).unwrap(), false);
}

#[test]
fn same_password_hashes_differ_and_both_verify() {
    let ub = quick_store();
    let a = ub.add_user("alice", "shared-secret").unwrap();
    let b = ub.add_user("bob", "shared-secret").unwrap();
    assert_ne!(a.p_word, b.p_word);
    assert_eq!(ub.verify("shared-secret", Some(&a.p_word)).unwrap(), true);
    assert_eq!(ub.verify("shared-secret", Some(&b.p_word)).unwrap(), true);
}

#[test]
fn verify_unknown_user() {
    let ub = quick_store();
    assert!(matches!(ub.verify("secret", None), Err(UBaseErr::InvalidCredential)));
}

#[test]
fn verify_malformed_hash() {
    let ub = quick_store();
    assert!(matches!(ub.verify("secret", Some("abc")), Err(UBaseErr::HashingFailure(_))));
    let not_bcrypt = "x".repeat(60);
    assert!(matches!(ub.verify("secret", Some(&not_bcrypt)), Err(UBaseErr::HashingFailure(_))));
}

#[test]
fn pay_builds_the_row() {
    let ub = quick_store();
    let t = ub.pay("A", "B", 100).unwrap();
    assert_eq!(t.u_from, "A");
    assert_eq!(t.u_to, "B");
    assert_eq!(t.t_amount, 100);
    let big = ub.pay("A", "B", i64::MAX).unwrap();
    assert_eq!(big.t_amount, i64::MAX);
}

#[test]
fn pay_rejects_non_positive_amounts() {
    let ub = quick_store();
    assert!(matches!(ub.pay("A", "B", 0), Err(UBaseErr::InvalidAmount)));
    assert!(matches!(ub.pay("A", "B", -100), Err(UBaseErr::InvalidAmount)));
    assert!(matches!(ub.pay("A", "B", i64::MIN), Err(UBaseErr::InvalidAmount)));
    assert!(matches!(ub.pay("A", "A", 0), Err(UBaseErr::InvalidAmount)));
}

#[test]
fn pay_rejects_self_transfer() {
    let ub = quick_store();
    assert!(matches!(ub.pay("A", "A", 100), Err(UBaseErr::SelfTransfer)));
    assert!(matches!(ub.pay("", "", 1), Err(UBaseErr::SelfTransfer)));
}

#[test]
fn user_insert_failures_are_classified() {
    assert!(matches!(UBaseErr::from_user_insert(Some(19), None), UBaseErr::DuplicateUser));
    assert!(matches!(
        UBaseErr::from_user_insert(Some(2067), Some("UNIQUE constraint failed".to_string())),
        UBaseErr::DuplicateUser
    ));
    match UBaseErr::from_user_insert(Some(1), Some("no such table".to_string())) {
        UBaseErr::StorageFailure { code, message } => {
            assert_eq!(code, Some(1));
            assert_eq!(message.as_deref(), Some("no such table"));
        }
        other => panic!("unexpected {:?}", other),
    }
    let none = UBaseErr::from_user_insert(None, None);
    assert!(none.is_storage_failure());
}

#[test]
fn other_storage_failures_are_not_classified() {
    let e = UBaseErr::from_storage(Some(19), None);
    assert!(e.is_storage_failure());
    assert!(matches!(e, UBaseErr::StorageFailure { code: Some(19), message: None }));
    assert!(!UBaseErr::DuplicateUser.is_storage_failure());
}

#[test]
fn hashing_errors_convert() {
    let e = UBaseErr::from(bcrypt::BcryptError::CostNotAllowed(3));
    assert!(matches!(
        e,
        UBaseErr::HashingFailure(HashFault::Other(bcrypt::BcryptError::CostNotAllowed(3)))
    ));
}

#[test]
fn statements_name_the_tables() {
    assert!(schema_sql().contains("u_name TEXT UNIQUE"));
    assert!(schema_sql().contains("create table if not exists transactions"));
    assert_eq!(insert_user_sql(), "insert into users (u_name, p_word) values (?, ?);");
    assert!(insert_transfer_sql().contains("datetime('now')"));
    assert_eq!(select_hash_sql(), "select p_word from users where u_name = ?;");
}

#[test]
fn verdict_passes_answers_through() {
    assert_eq!(verdict_of(Ok(true)).unwrap(), true);
    assert_eq!(verdict_of(Ok(false)).unwrap(), false);
    let failed = verdict_of(Err(bcrypt::BcryptError::InvalidHash("the hash format is malformed")));
    assert!(matches!(
        failed,
        Err(UBaseErr::HashingFailure(HashFault::Other(bcrypt::BcryptError::InvalidHash(_))))
    ));
}
