use vstd::prelude::*;

use crate::error::{AppError, Failure};
use crate::jwt::{verify_access_token, Claims, TokenType};

verus! {

/// The user a request was made by, as its access token names it.
pub struct AuthUser {
    pub user_id: u128,
}

/// The token an Authorization header carries: the text after a leading `Bearer `; `None`
/// when the header does not start so.
pub open spec fn bearer_of(header: Seq<char>) -> Option<Seq<char>> {
    if header.len() >= 7 && header.take(7) == "Bearer "@ {
        Some(header.skip(7))
    } else {
        None
    }
}

/// Law: a header made of `Bearer ` and a token carries exactly that token.
pub proof fn law_bearer_header_carries_token(token: Seq<char>)
    ensures
        bearer_of("Bearer "@ + token) == Some(token),
{
    reveal_strlit("Bearer ");
    let h = "Bearer "@ + token;
    assert(h.take(7) =~= "Bearer "@);
    assert(h.skip(7) =~= token);
}

impl AuthUser {
    /// The token of the Authorization header: 401 "Missing Authorization header" when the
    /// request has none readable as text, 401 "Invalid Authorization header" when it does not
    /// start with `Bearer `.
    pub fn bearer_token(header: Option<&str>) -> (r: Result<&str, AppError>)
        ensures
            match header {
                None => r matches Err(e) && e@ == Failure::Unauthorized(
                    "Missing Authorization header"@,
                ),
                Some(h) => match bearer_of(h@) {
                    Some(t) => r matches Ok(s) && s@ == t,
                    None => r matches Err(e) && e@ == Failure::Unauthorized(
                        "Invalid Authorization header"@,
                    ),
                },
            },
    {
        let h = match header {
            Some(h) => h,
            None => return Err(AppError::unauthorized("Missing Authorization header")),
        };
        proof {
            reveal_strlit("Bearer ");
        }
        let n = h.unicode_len();
        if n < 7 {
            return Err(AppError::unauthorized("Invalid Authorization header"));
        }
        let head = h.substring_char(0, 7);
        if !crate::text::same_text(head, "Bearer ") {
            return Err(AppError::unauthorized("Invalid Authorization header"));
        }
        Ok(h.substring_char(7, n))
    }

    /// The user of a decoded token: 401 "Invalid or expired token" unless it decoded and is
    /// an access token.
    pub fn from_claims(decoded: Result<Claims, jsonwebtoken::errors::Error>) -> (r: Result<
        AuthUser,
        AppError,
    >)
        ensures
            match decoded {
                Ok(c) => if c.typ == TokenType::Access {
                    r matches Ok(u) && u.user_id == c.sub
                } else {
                    r matches Err(e) && e@ == Failure::Unauthorized("Invalid or expired token"@)
                },
                Err(_) => r matches Err(e) && e@ == Failure::Unauthorized(
                    "Invalid or expired token"@,
                ),
            },
    {
        match verify_access_token(decoded) {
            Ok(claims) => Ok(AuthUser { user_id: claims.sub }),
            Err(_) => Err(AppError::unauthorized("Invalid or expired token")),
        }
    }
}

} // verus!
