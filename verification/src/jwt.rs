use vstd::prelude::*;

use crate::config::{algorithm_name, is_hmac, is_hmac_name, JwtConfig};
use crate::time::{is_clock_reading, now, shifted, ClockReading, Timestamp};

verus! {

#[verifier::external_type_specification]
#[verifier::external_body]
pub struct ExJwtError(jsonwebtoken::errors::Error);

/// What a token is for.
#[derive(Clone, Copy, PartialEq, Eq, Structural, Debug)]
pub enum TokenType {
    Access,
    Refresh,
}

/// The claims a token carries: its user, expiry and issue times (seconds since the epoch),
/// and what it is for.
#[derive(Clone, Copy, PartialEq, Eq, Structural, Debug)]
pub struct Claims {
    pub sub: u128,
    pub exp: usize,
    pub iat: usize,
    pub typ: TokenType,
}

/// Why a token could not be made: its expiry falls outside the dates a date-time can name,
/// or the signing failed.
#[derive(Clone, Copy, PartialEq, Eq, Structural, Debug)]
pub enum TokenError {
    TimeOutOfRange,
    Encoding,
}

/// The name a token type is written with in the claims.
pub open spec fn token_type_text(t: TokenType) -> Seq<char> {
    match t {
        TokenType::Access => "Access"@,
        TokenType::Refresh => "Refresh"@,
    }
}

impl TokenType {
    /// The name this type is written with in the claims.
    pub fn name(&self) -> (r: &'static str)
        ensures
            r@ == token_type_text(*self),
    {
        match self {
            TokenType::Access => "Access",
            TokenType::Refresh => "Refresh",
        }
    }
}

/// The claims of a token of `user_id` issued at `now` that lives `lifetime` seconds; `None`
/// when its expiry is not a date-time.
pub open spec fn token_claims(user_id: u128, now: Timestamp, lifetime: int, typ: TokenType) -> Option<
    Claims,
> {
    match shifted(now, lifetime) {
        Some(exp) => Some(
            Claims { sub: user_id, exp: exp.secs as usize, iat: now.secs as usize, typ },
        ),
        None => None,
    }
}

/// The claims of an access token issued at `now`: it lives the configured minutes.
pub open spec fn access_claims(user_id: u128, now: Timestamp, config: JwtConfig) -> Option<Claims> {
    token_claims(user_id, now, config.access_exp_minutes * 60, TokenType::Access)
}

/// The claims of a refresh token issued at `now`: it lives the configured days.
pub open spec fn refresh_claims(user_id: u128, now: Timestamp, config: JwtConfig) -> Option<
    Claims,
> {
    token_claims(user_id, now, config.refresh_exp_days * 86400, TokenType::Refresh)
}

/// The token `jsonwebtoken::encode` produces for a header naming the algorithm `alg`, the
/// claims `{"sub": <uuid of sub>, "exp": exp, "iat": iat, "typ": typ}` in that order, and
/// the key made from `secret`.
pub uninterp spec fn signed_token(
    alg: Seq<char>,
    sub: u128,
    exp: usize,
    iat: usize,
    typ: Seq<char>,
    secret: Seq<char>,
) -> Seq<char>;

/// Whether a character can appear in a signed token: URL-safe base64 or the `.` between
/// the parts.
pub open spec fn is_token_char(c: char) -> bool {
    ('A' <= c <= 'Z') || ('a' <= c <= 'z') || ('0' <= c <= '9') || c == '-' || c == '_' || c
        == '.'
}

/// Whether a text is made only of the characters a signed token can hold.
pub open spec fn is_token_text(t: Seq<char>) -> bool {
    forall|i: int| 0 <= i < t.len() ==> is_token_char(#[trigger] t[i])
}

/// The token for some claims under a configuration.
pub open spec fn token_for(c: Claims, config: JwtConfig) -> Seq<char> {
    signed_token(algorithm_name(config.algorithm), c.sub, c.exp, c.iat, token_type_text(c.typ), config.secret@)
}

/// What making a token gives for the claims it was to carry.
pub open spec fn made_token(r: Result<String, TokenError>, claims: Option<Claims>, config: JwtConfig) -> bool {
    match claims {
        None => r == Err::<String, TokenError>(TokenError::TimeOutOfRange),
        Some(c) => if is_hmac(config.algorithm) {
            r matches Ok(t) && t@ == token_for(c, config) && is_token_text(t@)
        } else {
            r == Err::<String, TokenError>(TokenError::Encoding)
        },
    }
}

/// `jsonwebtoken::encode` with `Header::new` of the algorithm named `alg` (parsed by
/// `Algorithm::from_str`), the claims written as a JSON object `{"sub", "exp", "iat", "typ"}`
/// in that order (the subject as a hyphenated UUID), and `EncodingKey::from_secret(secret)`.
/// The token is a function of these arguments alone (named `signed_token`). Claimed from the
/// source: it succeeds exactly for the names of the HMAC algorithms, since any other name is
/// either refused by `from_str` or names an algorithm of another family than the HMAC key,
/// which `encode` refuses, and HMAC signing of serialized JSON does not fail. Also claimed:
/// the token is the three parts in URL-safe base64 without padding joined by `.`, so it holds
/// no other characters.
#[verifier::external_body]
fn encode_token(
    alg: &str,
    sub: u128,
    exp: usize,
    iat: usize,
    typ: &str,
    secret: &str,
) -> (r: Result<String, jsonwebtoken::errors::Error>)
    ensures
        (r is Ok) == is_hmac_name(alg@),
        r matches Ok(t) ==> t@ == signed_token(alg@, sub, exp, iat, typ@, secret@) && is_token_text(
            t@,
        ),
{
    let mut claims = serde_json::Map::new();
    claims.insert(String::from("sub"), serde_json::Value::String(uuid::Uuid::from_u128(sub).to_string()));
    claims.insert(String::from("exp"), serde_json::Value::from(exp));
    claims.insert(String::from("iat"), serde_json::Value::from(iat));
    claims.insert(String::from("typ"), serde_json::Value::String(String::from(typ)));
    let header = jsonwebtoken::Header::new(alg.parse::<jsonwebtoken::Algorithm>()?);
    let key = jsonwebtoken::EncodingKey::from_secret(secret.as_bytes());
    jsonwebtoken::encode(&header, &claims, &key)
}

/// The claims of a token of `user_id` issued at `now` that lives `lifetime` seconds.
pub fn claims_at(user_id: u128, now: Timestamp, lifetime: i128, typ: TokenType) -> (r: Option<Claims>)
    requires
        -0x1_0000_0000_0000_0000_0000_0000 < lifetime < 0x1_0000_0000_0000_0000_0000_0000,
    ensures
        r == token_claims(user_id, now, lifetime as int, typ),
{
    match now.shift(lifetime) {
        Some(exp) => Some(
            Claims { sub: user_id, exp: exp.secs as usize, iat: now.secs as usize, typ },
        ),
        None => None,
    }
}

/// Signs the claims with the configured algorithm and secret.
pub fn sign_claims(claims: &Claims, config: &JwtConfig) -> (r: Result<String, TokenError>)
    ensures
        made_token(r, Some(*claims), *config),
{
    match encode_token(
        config.algorithm.name(),
        claims.sub,
        claims.exp,
        claims.iat,
        claims.typ.name(),
        config.secret.as_str(),
    ) {
        Ok(t) => Ok(t),
        Err(_) => Err(TokenError::Encoding),
    }
}

/// An access token for `user_id`, issued now and living the configured minutes.
pub fn generate_access_token(user_id: u128, config: &JwtConfig) -> (r: Result<String, TokenError>)
    ensures
        exists|c: ClockReading|
            is_clock_reading(c.time()) && made_token(
                r,
                access_claims(user_id, c.time(), *config),
                *config,
            ),
{
    let t = now().timestamp();
    let lifetime = config.access_exp_minutes as i128 * 60;
    match claims_at(user_id, t, lifetime, TokenType::Access) {
        Some(c) => sign_claims(&c, config),
        None => Err(TokenError::TimeOutOfRange),
    }
}

/// A refresh token for `user_id`, issued now and living the configured days.
pub fn generate_refresh_token(user_id: u128, config: &JwtConfig) -> (r: Result<String, TokenError>)
    ensures
        exists|c: ClockReading|
            is_clock_reading(c.time()) && made_token(
                r,
                refresh_claims(user_id, c.time(), *config),
                *config,
            ),
{
    let t = now().timestamp();
    let lifetime = config.refresh_exp_days as i128 * 86400;
    match claims_at(user_id, t, lifetime, TokenType::Refresh) {
        Some(c) => sign_claims(&c, config),
        None => Err(TokenError::TimeOutOfRange),
    }
}

/// The answer of checking a decoded token against the type it must have.
pub open spec fn checked_claims(
    decoded: Result<Claims, jsonwebtoken::errors::Error>,
    want: TokenType,
    wrong_type: Seq<char>,
    r: Result<Claims, &'static str>,
) -> bool {
    match decoded {
        Err(_) => r matches Err(m) && m@ == "Invalid token"@,
        Ok(c) => if c.typ == want {
            r == Ok::<Claims, &'static str>(c)
        } else {
            r matches Err(m) && m@ == wrong_type
        },
    }
}

/// The claims of a decoded token when it is an access token.
pub fn verify_access_token(decoded: Result<Claims, jsonwebtoken::errors::Error>) -> (r: Result<
    Claims,
    &'static str,
>)
    ensures
        checked_claims(decoded, TokenType::Access, "Invalid access token type"@, r),
{
    let claims = match decoded {
        Ok(c) => c,
        Err(_) => return Err("Invalid token"),
    };
    if claims.typ != TokenType::Access {
        return Err("Invalid access token type");
    }
    Ok(claims)
}

/// The claims of a decoded token when it is a refresh token.
pub fn verify_refresh_token(decoded: Result<Claims, jsonwebtoken::errors::Error>) -> (r: Result<
    Claims,
    &'static str,
>)
    ensures
        checked_claims(decoded, TokenType::Refresh, "Invalid refresh token type"@, r),
{
    let claims = match decoded {
        Ok(c) => c,
        Err(_) => return Err("Invalid token"),
    };
    if claims.typ != TokenType::Refresh {
        return Err("Invalid refresh token type");
    }
    Ok(claims)
}

/// Law: no token is accepted both as an access token and as a refresh token.
pub proof fn law_token_types_exclusive(
    decoded: Result<Claims, jsonwebtoken::errors::Error>,
    as_access: Result<Claims, &'static str>,
    as_refresh: Result<Claims, &'static str>,
)
    requires
        checked_claims(decoded, TokenType::Access, "Invalid access token type"@, as_access),
        checked_claims(decoded, TokenType::Refresh, "Invalid refresh token type"@, as_refresh),
    ensures
        !(as_access is Ok && as_refresh is Ok),
{
}

/// Law: once decoded, the claims a token was signed with pass the check of their own type
/// and no other: an access token's claims are accepted as such and refused as a refresh
/// token ("Invalid refresh token type"), and a refresh token's the other way round.
pub proof fn law_issued_claims_pass_their_own_check(
    user_id: u128,
    now: Timestamp,
    config: JwtConfig,
    access_as_access: Result<Claims, &'static str>,
    access_as_refresh: Result<Claims, &'static str>,
    refresh_as_refresh: Result<Claims, &'static str>,
    refresh_as_access: Result<Claims, &'static str>,
)
    requires
        access_claims(user_id, now, config) is Some,
        refresh_claims(user_id, now, config) is Some,
        checked_claims(
            Ok(access_claims(user_id, now, config)->0),
            TokenType::Access,
            "Invalid access token type"@,
            access_as_access,
        ),
        checked_claims(
            Ok(access_claims(user_id, now, config)->0),
            TokenType::Refresh,
            "Invalid refresh token type"@,
            access_as_refresh,
        ),
        checked_claims(
            Ok(refresh_claims(user_id, now, config)->0),
            TokenType::Refresh,
            "Invalid refresh token type"@,
            refresh_as_refresh,
        ),
        checked_claims(
            Ok(refresh_claims(user_id, now, config)->0),
            TokenType::Access,
            "Invalid access token type"@,
            refresh_as_access,
        ),
    ensures
        access_as_access == Ok::<Claims, &'static str>(access_claims(user_id, now, config)->0),
        access_as_access matches Ok(c) && c.sub == user_id && c.typ == TokenType::Access,
        access_as_refresh matches Err(m) && m@ == "Invalid refresh token type"@,
        refresh_as_refresh == Ok::<Claims, &'static str>(refresh_claims(user_id, now, config)->0),
        refresh_as_refresh matches Ok(c) && c.sub == user_id && c.typ == TokenType::Refresh,
        refresh_as_access matches Err(m) && m@ == "Invalid access token type"@,
{
}

/// The seconds a token of the given type lives under a configuration.
pub open spec fn lifetime_of(typ: TokenType, config: JwtConfig) -> int {
    match typ {
        TokenType::Access => config.access_exp_minutes * 60,
        TokenType::Refresh => config.refresh_exp_days * 86400,
    }
}

/// The token signs claims of `user_id` and `typ` issued at the clock reading `c`: issued at
/// the reading's second and expiring the type's lifetime later.
pub open spec fn signed_at_reading(
    token: Seq<char>,
    user_id: u128,
    typ: TokenType,
    config: JwtConfig,
    c: ClockReading,
) -> bool {
    exists|claims: Claims|
        #![trigger token_for(claims, config)]
        token == token_for(claims, config) && claims.sub == user_id && claims.typ == typ
            && claims.iat == c.time().secs as usize && claims.exp == (c.time().secs + lifetime_of(
            typ,
            config,
        )) as usize
}

/// Law: tokens are issued at the current clock. A token that `generate_access_token` or
/// `generate_refresh_token` hands out signs claims issued at a reading of the clock taken
/// by that call (not at a time computed from it), expiring the configured minutes (access)
/// or days (refresh) after that reading.
pub proof fn law_tokens_are_issued_at_the_clock(
    user_id: u128,
    config: JwtConfig,
    access: Result<String, TokenError>,
    refresh: Result<String, TokenError>,
)
    requires
        exists|c: ClockReading|
            is_clock_reading(c.time()) && made_token(
                access,
                access_claims(user_id, c.time(), config),
                config,
            ),
        exists|c: ClockReading|
            is_clock_reading(c.time()) && made_token(
                refresh,
                refresh_claims(user_id, c.time(), config),
                config,
            ),
    ensures
        access matches Ok(t) ==> exists|c: ClockReading|
            is_clock_reading(c.time()) && signed_at_reading(t@, user_id, TokenType::Access, config, c),
        refresh matches Ok(t) ==> exists|c: ClockReading|
            is_clock_reading(c.time()) && signed_at_reading(
                t@,
                user_id,
                TokenType::Refresh,
                config,
                c,
            ),
{
    let ca = choose|c: ClockReading|
        is_clock_reading(c.time()) && made_token(access, access_claims(user_id, c.time(), config), config);
    let cr = choose|c: ClockReading|
        is_clock_reading(c.time()) && made_token(
            refresh,
            refresh_claims(user_id, c.time(), config),
            config,
        );
    if access is Ok {
        let claims = access_claims(user_id, ca.time(), config)->0;
        assert(signed_at_reading(access->Ok_0@, user_id, TokenType::Access, config, ca));
    }
    if refresh is Ok {
        let claims = refresh_claims(user_id, cr.time(), config)->0;
        assert(signed_at_reading(refresh->Ok_0@, user_id, TokenType::Refresh, config, cr));
    }
}

/// Law: a token's claims name its user and type, were issued at the clock reading, and
/// expire its lifetime later.
pub proof fn law_claims_lifetime(user_id: u128, now: Timestamp, lifetime: int, typ: TokenType)
    requires
        is_clock_reading(now),
        token_claims(user_id, now, lifetime, typ) is Some,
    ensures
        ({
            let c = token_claims(user_id, now, lifetime, typ)->0;
            &&& c.sub == user_id
            &&& c.typ == typ
            &&& now.secs <= usize::MAX ==> c.iat == now.secs
            &&& 0 <= now.secs + lifetime <= usize::MAX ==> c.exp == now.secs + lifetime
        }),
{
}

} // verus!
