use vstd::prelude::*;

verus! {

/// Creates both tables if they are missing, so that opening a store twice is safe.
/// The usernames are unique, and no password is stored but as its hash.
pub fn schema_sql() -> (r: &'static str)
    ensures
        r@ == "create table if not exists users (u_name TEXT UNIQUE, p_word TEXT);
create table if not exists transactions (u_from TEXT, u_to TEXT, t_date TEXT, t_amount INTEGER);"@,
{
    "create table if not exists users (u_name TEXT UNIQUE, p_word TEXT);
create table if not exists transactions (u_from TEXT, u_to TEXT, t_date TEXT, t_amount INTEGER);"
}

/// Inserts one user; binds the username, then the password hash.
pub fn insert_user_sql() -> (r: &'static str)
    ensures
        r@ == "insert into users (u_name, p_word) values (?, ?);"@,
{
    "insert into users (u_name, p_word) values (?, ?);"
}

/// Inserts one transfer; binds payer, payee and amount. The database stamps the
/// row with its own UTC clock at insertion, so no caller can set the time.
pub fn insert_transfer_sql() -> (r: &'static str)
    ensures
        r@ == "insert into transactions (u_from, u_to, t_date, t_amount) values (?, ?, datetime('now'), ?);"@,
{
    "insert into transactions (u_from, u_to, t_date, t_amount) values (?, ?, datetime('now'), ?);"
}

/// Looks up the stored hash of one user; binds the username.
pub fn select_hash_sql() -> (r: &'static str)
    ensures
        r@ == "select p_word from users where u_name = ?;"@,
{
    "select p_word from users where u_name = ?;"
}

} // verus!
