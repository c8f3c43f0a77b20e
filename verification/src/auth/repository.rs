use vstd::prelude::*;

use crate::sql::{args_of, SqlArg, SqlStatement, SqlValue};
use crate::time::Timestamp;

verus! {

/// Builds the statements that read and write users and refresh tokens.
pub struct AuthRepository;

/// The text that reads a user by email.
pub open spec fn find_by_email_sql() -> Seq<char> {
    "SELECT id, email, password_hash FROM users WHERE email = $1"@
}

/// The text that inserts a user and returns the new row.
pub open spec fn create_user_sql() -> Seq<char> {
    "INSERT INTO users (email, password_hash)\n             VALUES ($1, $2)\n             RETURNING id, email, password_hash"@
}

/// The text that stores a refresh token hash.
pub open spec fn save_refresh_token_sql() -> Seq<char> {
    "INSERT INTO refresh_tokens (user_id, token_hash, expires_at)\n             VALUES ($1, $2, $3)"@
}

/// The text that reads all refresh tokens of a user.
pub open spec fn find_refresh_tokens_sql() -> Seq<char> {
    "SELECT id, token_hash, expires_at, revoked\n         FROM refresh_tokens\n         WHERE user_id = $1"@
}

/// The text that revokes one refresh token.
pub open spec fn revoke_refresh_token_sql() -> Seq<char> {
    "UPDATE refresh_tokens SET revoked = true WHERE id = $1"@
}

impl AuthRepository {
    /// The statement that reads the user with this email.
    pub fn find_by_email(email: &str) -> (r: SqlStatement)
        ensures
            r.text() == find_by_email_sql(),
            r.args() == seq![SqlArg::Text(email@)],
    {
        let mut binds: Vec<SqlValue> = Vec::new();
        binds.push(SqlValue::Text(email.to_owned()));
        let r = SqlStatement {
            sql: String::from_str("SELECT id, email, password_hash FROM users WHERE email = $1"),
            binds,
        };
        assert(r.args() =~= seq![SqlArg::Text(email@)]);
        r
    }

    /// The statement that inserts a user.
    pub fn create_user(email: &str, password_hash: &str) -> (r: SqlStatement)
        ensures
            r.text() == create_user_sql(),
            r.args() == seq![SqlArg::Text(email@), SqlArg::Text(password_hash@)],
    {
        let mut binds: Vec<SqlValue> = Vec::new();
        binds.push(SqlValue::Text(email.to_owned()));
        binds.push(SqlValue::Text(password_hash.to_owned()));
        let r = SqlStatement {
            sql: String::from_str(
                "INSERT INTO users (email, password_hash)\n             VALUES ($1, $2)\n             RETURNING id, email, password_hash",
            ),
            binds,
        };
        assert(r.args() =~= seq![SqlArg::Text(email@), SqlArg::Text(password_hash@)]);
        r
    }

    /// The statement that stores the hash of a refresh token of a user, with its expiry.
    pub fn save_refresh_token(user_id: u128, token_hash: &str, expires_at: Timestamp) -> (r:
        SqlStatement)
        ensures
            r.text() == save_refresh_token_sql(),
            r.args() == seq![
                SqlArg::Uuid(user_id),
                SqlArg::Text(token_hash@),
                SqlArg::Time(expires_at),
            ],
    {
        let mut binds: Vec<SqlValue> = Vec::new();
        binds.push(SqlValue::Uuid(user_id));
        binds.push(SqlValue::Text(token_hash.to_owned()));
        binds.push(SqlValue::Time(expires_at));
        let r = SqlStatement {
            sql: String::from_str(
                "INSERT INTO refresh_tokens (user_id, token_hash, expires_at)\n             VALUES ($1, $2, $3)",
            ),
            binds,
        };
        assert(r.args() =~= seq![
            SqlArg::Uuid(user_id),
            SqlArg::Text(token_hash@),
            SqlArg::Time(expires_at),
        ]);
        r
    }

    /// The statement that reads every refresh token of a user, revoked and expired ones too.
    pub fn find_valid_refresh_token(user_id: u128) -> (r: SqlStatement)
        ensures
            r.text() == find_refresh_tokens_sql(),
            r.args() == seq![SqlArg::Uuid(user_id)],
    {
        let mut binds: Vec<SqlValue> = Vec::new();
        binds.push(SqlValue::Uuid(user_id));
        let r = SqlStatement {
            sql: String::from_str(
                "SELECT id, token_hash, expires_at, revoked\n         FROM refresh_tokens\n         WHERE user_id = $1",
            ),
            binds,
        };
        assert(r.args() =~= seq![SqlArg::Uuid(user_id)]);
        r
    }

    /// The statement that revokes the refresh token with this id.
    pub fn revoke_refresh_token(token_id: u128) -> (r: SqlStatement)
        ensures
            r.text() == revoke_refresh_token_sql(),
            r.args() == seq![SqlArg::Uuid(token_id)],
    {
        let mut binds: Vec<SqlValue> = Vec::new();
        binds.push(SqlValue::Uuid(token_id));
        let r = SqlStatement {
            sql: String::from_str("UPDATE refresh_tokens SET revoked = true WHERE id = $1"),
            binds,
        };
        assert(r.args() =~= seq![SqlArg::Uuid(token_id)]);
        r
    }
}

} // verus!
