use vstd::prelude::*;

use crate::config::JwtConfig;
use crate::error::{AppError, Failure};
use crate::jwt::{
    access_claims, generate_access_token, generate_refresh_token, refresh_claims, token_for,
    verify_refresh_token, Claims, TokenError, TokenType,
};
use crate::jwt::is_token_text;
use crate::password::{bcrypt_failed_for, bcrypt_verifies, hash_password, is_bcrypt_hash, verify_password, PasswordError};
use crate::time::{is_before, is_clock_reading, now, shifted, ClockReading, Timestamp};

verus! {

/// A registered user as stored.
pub struct User {
    pub id: u128,
    pub email: String,
    pub password_hash: String,
}

/// A stored refresh token: the hash of the token, when it expires and whether it was revoked.
pub struct StoredRefreshToken {
    pub id: u128,
    pub token_hash: String,
    pub expires_at: Timestamp,
    pub revoked: bool,
}

/// The tokens handed to a client that signed in.
pub struct AuthResponse {
    pub access_token: String,
    pub refresh_token: String,
}

/// A database operation the flow needs done before it can go on.
pub enum AuthCommand {
    FindUserByEmail { email: String },
    CreateUser { email: String, password_hash: String },
    SaveRefreshToken { user_id: u128, token_hash: String, expires_at: Timestamp },
    FindRefreshTokens { user_id: u128 },
    RevokeRefreshToken { token_id: u128 },
}

/// What a database operation gave back.
pub enum AuthReply {
    UserLookup(Option<User>),
    UserCreated(User),
    TokenSaved,
    RefreshTokens(Vec<StoredRefreshToken>),
    TokenRevoked,
    DatabaseError,
}

/// What a finished flow gives the client.
pub enum AuthOutcome {
    Tokens(AuthResponse),
    LoggedOut,
}

/// The next thing to do: run a database operation, or answer.
pub enum AuthStep {
    Run(AuthCommand),
    Finish(Result<AuthOutcome, AppError>),
}

/// Where a sign-up, sign-in, token refresh or sign-out stands, waiting for a reply.
pub enum AuthFlow {
    RegisterLookup { email: String, password: String },
    RegisterCreate,
    LoginLookup { password: String },
    SavingTokens { tokens: AuthResponse },
    RefreshLookup { presented: String, user_id: u128 },
    RefreshRevoke { user_id: u128 },
    LogoutLookup,
    LogoutRevoke { pending: Vec<u128> },
    Finished,
}

/// Sign-up, sign-in, token refresh and sign-out.
pub struct AuthService;

/// The step answers the failure.
pub open spec fn finishes_with(out: AuthStep, f: Failure) -> bool {
    out matches AuthStep::Finish(Err(e)) && e@ == f
}

/// The flow is over and answers an internal error.
pub open spec fn internal_end(next: AuthFlow, out: AuthStep) -> bool {
    next is Finished && finishes_with(out, Failure::InternalServerError)
}

/// A stored token can stand for the presented one at time `now`: not revoked, not expired,
/// and its hash matches the presented token.
pub open spec fn usable(t: StoredRefreshToken, now: Timestamp, presented: Seq<char>) -> bool {
    !t.revoked && !is_before(t.expires_at, now) && bcrypt_verifies(presented, t.token_hash@) == Some(
        true,
    )
}

/// The id of the first usable stored token.
pub open spec fn first_usable(tokens: Seq<StoredRefreshToken>, now: Timestamp, presented: Seq<char>) -> Option<
    u128,
>
    decreases tokens.len(),
{
    if tokens.len() == 0 {
        None
    } else if usable(tokens[0], now, presented) {
        Some(tokens[0].id)
    } else {
        first_usable(tokens.drop_first(), now, presented)
    }
}

/// The ids of the stored tokens, in order.
pub open spec fn ids_of(tokens: Seq<StoredRefreshToken>) -> Seq<u128> {
    tokens.map_values(|t: StoredRefreshToken| t.id)
}

/// New tokens were made for `user_id` from the clock readings `t1` (access), `t2` (refresh)
/// and `t3` (expiry of the stored hash), and the hash of the refresh token is to be saved.
pub open spec fn tokens_issued(
    config: JwtConfig,
    user_id: u128,
    t1: Timestamp,
    t2: Timestamp,
    t3: Timestamp,
    next: AuthFlow,
    out: AuthStep,
) -> bool {
    &&& is_clock_reading(t1)
    &&& is_clock_reading(t2)
    &&& is_clock_reading(t3)
    &&& next matches AuthFlow::SavingTokens { tokens }
    &&& access_claims(user_id, t1, config) matches Some(a)
    &&& tokens.access_token@ == token_for(a, config)
    &&& refresh_claims(user_id, t2, config) matches Some(rc)
    &&& tokens.refresh_token@ == token_for(rc, config)
    &&& out matches AuthStep::Run(AuthCommand::SaveRefreshToken { user_id: u, token_hash: h, expires_at: e })
    &&& u == user_id
    &&& bcrypt_verifies(tokens.refresh_token@, h@) == Some(true)
    &&& is_bcrypt_hash(h@)
    &&& h@ != tokens.refresh_token@
    &&& shifted(t3, config.refresh_exp_days * 86400) == Some(e)
}

/// Issuing tokens for `user_id` either failed (internal error) or made new tokens.
pub open spec fn issued(config: JwtConfig, user_id: u128, next: AuthFlow, out: AuthStep) -> bool {
    ||| internal_end(next, out)
    ||| exists|c1: ClockReading, c2: ClockReading, c3: ClockReading|
        tokens_issued(config, user_id, c1.time(), c2.time(), c3.time(), next, out)
}

/// Revoking the next of the remaining tokens, or answering that the user is signed out.
pub open spec fn revoke_next(ids: Seq<u128>, next: AuthFlow, out: AuthStep) -> bool {
    if ids.len() == 0 {
        next is Finished && out matches AuthStep::Finish(Ok(AuthOutcome::LoggedOut))
    } else {
        &&& next matches AuthFlow::LogoutRevoke { pending }
        &&& pending@ == ids.drop_first()
        &&& out matches AuthStep::Run(AuthCommand::RevokeRefreshToken { token_id })
        &&& token_id == ids[0]
    }
}

/// The new user is to be inserted with its email and a hash of its password.
pub open spec fn asks_create(email: String, password: String, next: AuthFlow, out: AuthStep) -> bool {
    &&& next is RegisterCreate
    &&& out matches AuthStep::Run(AuthCommand::CreateUser { email: e, password_hash: h })
    &&& e == email
    &&& bcrypt_verifies(password@, h@) == Some(true)
    &&& is_bcrypt_hash(h@)
}

/// The hash a sign-up asks to store for the password.
pub open spec fn created_hash(out: AuthStep) -> Seq<char> {
    match out {
        AuthStep::Run(AuthCommand::CreateUser { password_hash, .. }) => password_hash@,
        _ => Seq::empty(),
    }
}

/// What one step of a flow does with a reply.
pub open spec fn step_spec(
    config: JwtConfig,
    flow: AuthFlow,
    reply: AuthReply,
    next: AuthFlow,
    out: AuthStep,
) -> bool {
    match flow {
        AuthFlow::RegisterLookup { email, password } => match reply {
            AuthReply::UserLookup(Some(_)) => next is Finished && finishes_with(
                out,
                Failure::Conflict("Email already exists"@),
            ),
            AuthReply::UserLookup(None) => (internal_end(next, out) && bcrypt_failed_for(
                password@,
            )) || asks_create(email, password, next, out),
            _ => internal_end(next, out),
        },
        AuthFlow::RegisterCreate => match reply {
            AuthReply::UserCreated(u) => issued(config, u.id, next, out),
            _ => internal_end(next, out),
        },
        AuthFlow::LoginLookup { password } => match reply {
            AuthReply::UserLookup(None) => next is Finished && finishes_with(
                out,
                Failure::Unauthorized("Invalid credentials"@),
            ),
            AuthReply::UserLookup(Some(u)) => match bcrypt_verifies(password@, u.password_hash@) {
                None => internal_end(next, out),
                Some(false) => next is Finished && finishes_with(
                    out,
                    Failure::Unauthorized("Invalid credentials"@),
                ),
                Some(true) => issued(config, u.id, next, out),
            },
            _ => internal_end(next, out),
        },
        AuthFlow::SavingTokens { tokens } => match reply {
            AuthReply::TokenSaved => next is Finished && out == AuthStep::Finish(
                Ok(AuthOutcome::Tokens(tokens)),
            ),
            _ => internal_end(next, out),
        },
        AuthFlow::RefreshLookup { presented, user_id } => match reply {
            AuthReply::RefreshTokens(list) => exists|c: ClockReading|
                is_clock_reading(c.time()) && match first_usable(list@, c.time(), presented@) {
                    None => next is Finished && finishes_with(
                        out,
                        Failure::BadRequest("Refresh token not found"@),
                    ),
                    Some(id) => next == (AuthFlow::RefreshRevoke { user_id }) && out
                        == AuthStep::Run(AuthCommand::RevokeRefreshToken { token_id: id }),
                },
            _ => internal_end(next, out),
        },
        AuthFlow::RefreshRevoke { user_id } => match reply {
            AuthReply::TokenRevoked => issued(config, user_id, next, out),
            _ => internal_end(next, out),
        },
        AuthFlow::LogoutLookup => match reply {
            AuthReply::RefreshTokens(list) => revoke_next(ids_of(list@), next, out),
            _ => internal_end(next, out),
        },
        AuthFlow::LogoutRevoke { pending } => match reply {
            AuthReply::TokenRevoked => revoke_next(pending@, next, out),
            AuthReply::DatabaseError => revoke_next(pending@, next, out),
            _ => internal_end(next, out),
        },
        AuthFlow::Finished => internal_end(next, out),
    }
}

/// The hash a step asks to save, when it asks to save one.
pub open spec fn saved_hash(out: AuthStep) -> Seq<char> {
    match out {
        AuthStep::Run(AuthCommand::SaveRefreshToken { token_hash, .. }) => token_hash@,
        _ => Seq::empty(),
    }
}

/// The expiry a step asks to save with a hash.
pub open spec fn saved_expiry(out: AuthStep) -> Timestamp {
    match out {
        AuthStep::Run(AuthCommand::SaveRefreshToken { expires_at, .. }) => expires_at,
        _ => Timestamp { secs: 0, nanos: 0 },
    }
}

/// The refresh token a flow is about to hand out.
pub open spec fn handed_refresh_token(next: AuthFlow) -> Seq<char> {
    match next {
        AuthFlow::SavingTokens { tokens } => tokens.refresh_token@,
        _ => Seq::empty(),
    }
}

/// Law: only a usable token is ever chosen, and it is the first usable one; when none is
/// chosen, none is usable. In particular revoked and expired tokens are never accepted.
pub proof fn law_only_usable_token_is_chosen(
    tokens: Seq<StoredRefreshToken>,
    now: Timestamp,
    presented: Seq<char>,
)
    ensures
        match first_usable(tokens, now, presented) {
            Some(id) => exists|i: int|
                0 <= i < tokens.len() && tokens[i].id == id && usable(tokens[i], now, presented)
                    && forall|j: int| 0 <= j < i ==> !usable(#[trigger] tokens[j], now, presented),
            None => forall|i: int|
                0 <= i < tokens.len() ==> !usable(#[trigger] tokens[i], now, presented),
        },
    decreases tokens.len(),
{
    if tokens.len() > 0 {
        let rest = tokens.drop_first();
        law_only_usable_token_is_chosen(rest, now, presented);
        if !usable(tokens[0], now, presented) {
            match first_usable(rest, now, presented) {
                Some(id) => {
                    let i = choose|i: int|
                        0 <= i < rest.len() && rest[i].id == id && usable(rest[i], now, presented)
                            && forall|j: int|
                            0 <= j < i ==> !usable(#[trigger] rest[j], now, presented);
                    assert(tokens[i + 1] == rest[i]);
                    assert forall|j: int| 0 <= j < i + 1 implies !usable(
                        #[trigger] tokens[j],
                        now,
                        presented,
                    ) by {
                        if j > 0 {
                            assert(tokens[j] == rest[j - 1]);
                        }
                    }
                },
                None => {
                    assert forall|i: int| 0 <= i < tokens.len() implies !usable(
                        #[trigger] tokens[i],
                        now,
                        presented,
                    ) by {
                        if i > 0 {
                            assert(tokens[i] == rest[i - 1]);
                        }
                    }
                },
            }
        }
    }
}

/// Law: a refresh token just issued is accepted against the hash saved with it, by id, until
/// it expires or is revoked.
pub proof fn law_issued_refresh_token_is_accepted(
    config: JwtConfig,
    user_id: u128,
    t1: Timestamp,
    t2: Timestamp,
    t3: Timestamp,
    next: AuthFlow,
    out: AuthStep,
    id: u128,
    token_hash: String,
    later: Timestamp,
)
    requires
        tokens_issued(config, user_id, t1, t2, t3, next, out),
        token_hash@ == saved_hash(out),
        !is_before(saved_expiry(out), later),
    ensures
        first_usable(
            seq![
                StoredRefreshToken {
                    id,
                    token_hash,
                    expires_at: saved_expiry(out),
                    revoked: false,
                },
            ],
            later,
            handed_refresh_token(next),
        ) == Some(id),
{
}

/// Law: signing in answers the same 401 "Invalid credentials" for an unknown email as for a
/// wrong password.
pub proof fn law_login_hides_unknown_email(
    config: JwtConfig,
    password: String,
    user: User,
    n1: AuthFlow,
    o1: AuthStep,
    n2: AuthFlow,
    o2: AuthStep,
)
    requires
        step_spec(config, AuthFlow::LoginLookup { password }, AuthReply::UserLookup(None), n1, o1),
        step_spec(config, AuthFlow::LoginLookup { password }, AuthReply::UserLookup(Some(user)), n2, o2),
        bcrypt_verifies(password@, user.password_hash@) == Some(false),
    ensures
        finishes_with(o1, Failure::Unauthorized("Invalid credentials"@)),
        finishes_with(o2, Failure::Unauthorized("Invalid credentials"@)),
        n1 is Finished && n2 is Finished,
{
}

/// Law: a refresh never hands out tokens straight away: it either ends, or revokes one stored
/// token of the user that is not revoked and whose hash matches the presented token.
pub proof fn law_refresh_revokes_before_issuing(
    config: JwtConfig,
    presented: String,
    user_id: u128,
    list: Vec<StoredRefreshToken>,
    next: AuthFlow,
    out: AuthStep,
)
    requires
        step_spec(
            config,
            AuthFlow::RefreshLookup { presented, user_id },
            AuthReply::RefreshTokens(list),
            next,
            out,
        ),
    ensures
        !(next is SavingTokens),
        out is Run ==> (out matches AuthStep::Run(AuthCommand::RevokeRefreshToken { token_id })
            && exists|i: int|
            0 <= i < list@.len() && list@[i].id == token_id && !list@[i].revoked
                && bcrypt_verifies(presented@, list@[i].token_hash@) == Some(true)),
        out is Run ==> next == (AuthFlow::RefreshRevoke { user_id }),
{
    let c = choose|c: ClockReading|
        is_clock_reading(c.time()) && match first_usable(list@, c.time(), presented@) {
            None => next is Finished && finishes_with(
                out,
                Failure::BadRequest("Refresh token not found"@),
            ),
            Some(id) => next == (AuthFlow::RefreshRevoke { user_id }) && out == AuthStep::Run(
                AuthCommand::RevokeRefreshToken { token_id: id },
            ),
        };
    law_only_usable_token_is_chosen(list@, c.time(), presented@);
}

/// The stored tokens after the revocation of token `id`: every row with that id is marked
/// revoked, the others stay as they were.
pub open spec fn revoke_rows(tokens: Seq<StoredRefreshToken>, id: u128) -> Seq<StoredRefreshToken> {
    tokens.map_values(
        |t: StoredRefreshToken|
            if t.id == id {
                StoredRefreshToken {
                    id: t.id,
                    token_hash: t.token_hash,
                    expires_at: t.expires_at,
                    revoked: true,
                }
            } else {
                t
            },
    )
}

/// Law: a refresh token is rotated at most once. After the stored token `id` that a refresh
/// chose has been revoked, no token is found for the same presented token, at any later
/// time, unless another stored token of the user matches it too.
pub proof fn law_rotated_token_is_refused(
    tokens: Seq<StoredRefreshToken>,
    id: u128,
    later: Timestamp,
    presented: Seq<char>,
)
    requires
        forall|i: int|
            0 <= i < tokens.len() && tokens[i].id != id ==> !usable(
                #[trigger] tokens[i],
                later,
                presented,
            ),
    ensures
        first_usable(revoke_rows(tokens, id), later, presented) is None,
{
    let after = revoke_rows(tokens, id);
    law_only_usable_token_is_chosen(after, later, presented);
    assert forall|i: int| 0 <= i < after.len() implies !usable(#[trigger] after[i], later, presented) by {
        if tokens[i].id != id {
            assert(after[i] == tokens[i]);
        }
    }
}

/// Law: presenting a refresh token again once its stored token `id` was revoked by the first
/// refresh is answered 400 "Refresh token not found" and asks for nothing more, unless
/// another stored token of the user, not revoked and not expired, matches it too.
pub proof fn law_second_refresh_is_refused(
    config: JwtConfig,
    presented: String,
    user_id: u128,
    id: u128,
    stored: Seq<StoredRefreshToken>,
    list: Vec<StoredRefreshToken>,
    next: AuthFlow,
    out: AuthStep,
)
    requires
        list@ == revoke_rows(stored, id),
        forall|i: int, t: Timestamp|
            0 <= i < stored.len() && stored[i].id != id && is_clock_reading(t) ==> !#[trigger] usable(
                stored[i],
                t,
                presented@,
            ),
        step_spec(
            config,
            AuthFlow::RefreshLookup { presented, user_id },
            AuthReply::RefreshTokens(list),
            next,
            out,
        ),
    ensures
        next is Finished,
        finishes_with(out, Failure::BadRequest("Refresh token not found"@)),
{
    let c = choose|c: ClockReading|
        is_clock_reading(c.time()) && match first_usable(list@, c.time(), presented@) {
            None => next is Finished && finishes_with(
                out,
                Failure::BadRequest("Refresh token not found"@),
            ),
            Some(k) => next == (AuthFlow::RefreshRevoke { user_id }) && out == AuthStep::Run(
                AuthCommand::RevokeRefreshToken { token_id: k },
            ),
        };
    law_rotated_token_is_refused(stored, id, c.time(), presented@);
}

/// Law: a sign-up never stores the password itself: the hash it asks to store differs from
/// the password, unless the password is itself shaped like such a hash (60 characters
/// starting with `$2b$12$`), which nothing here rules out.
pub proof fn law_stored_password_differs_from_hash(
    config: JwtConfig,
    email: String,
    password: String,
    next: AuthFlow,
    out: AuthStep,
)
    requires
        step_spec(
            config,
            AuthFlow::RegisterLookup { email, password },
            AuthReply::UserLookup(None),
            next,
            out,
        ),
        out is Run,
        !is_bcrypt_hash(password@),
    ensures
        out matches AuthStep::Run(AuthCommand::CreateUser { email: e, password_hash: h }),
        created_hash(out) != password@,
        bcrypt_verifies(password@, created_hash(out)) == Some(true),
{
}

/// What a refresh decided at time `now`: the token it revokes is a stored token that is not
/// revoked, does not expire before `now` and matches the presented token; and when no stored
/// token is usable at `now`, it answers 400 "Refresh token not found".
pub open spec fn refresh_judged_at(
    tokens: Seq<StoredRefreshToken>,
    presented: Seq<char>,
    now: Timestamp,
    out: AuthStep,
) -> bool {
    &&& forall|id: u128|
        #[trigger] revokes(out, id) ==> exists|i: int|
            0 <= i < tokens.len() && tokens[i].id == id && !tokens[i].revoked && !is_before(
                tokens[i].expires_at,
                now,
            ) && bcrypt_verifies(presented, tokens[i].token_hash@) == Some(true)
    &&& (forall|i: int| 0 <= i < tokens.len() ==> !usable(#[trigger] tokens[i], now, presented))
        ==> finishes_with(out, Failure::BadRequest("Refresh token not found"@))
}

/// Law: a refresh judges expiry against the clock at the step. There is a reading of the
/// clock taken by the step such that the stored token it revokes does not expire before that
/// reading, and when every stored token is revoked, expired at that reading or does not
/// match, the answer is 400 "Refresh token not found". A token that expired before the step
/// ran is never chosen.
pub proof fn law_refresh_judges_expiry_at_the_clock(
    config: JwtConfig,
    presented: String,
    user_id: u128,
    list: Vec<StoredRefreshToken>,
    next: AuthFlow,
    out: AuthStep,
)
    requires
        step_spec(
            config,
            AuthFlow::RefreshLookup { presented, user_id },
            AuthReply::RefreshTokens(list),
            next,
            out,
        ),
    ensures
        exists|c: ClockReading|
            is_clock_reading(c.time()) && refresh_judged_at(list@, presented@, c.time(), out),
{
    let c = choose|c: ClockReading|
        is_clock_reading(c.time()) && match first_usable(list@, c.time(), presented@) {
            None => next is Finished && finishes_with(
                out,
                Failure::BadRequest("Refresh token not found"@),
            ),
            Some(k) => next == (AuthFlow::RefreshRevoke { user_id }) && out == AuthStep::Run(
                AuthCommand::RevokeRefreshToken { token_id: k },
            ),
        };
    law_only_usable_token_is_chosen(list@, c.time(), presented@);
    assert(refresh_judged_at(list@, presented@, c.time(), out));
}

/// Law: the expiry saved with a refresh token's hash is a reading of the clock taken while
/// issuing, plus exactly the configured days; issuing that did not fail always saves one.
pub proof fn law_saved_expiry_is_clock_plus_days(
    config: JwtConfig,
    user_id: u128,
    next: AuthFlow,
    out: AuthStep,
)
    requires
        issued(config, user_id, next, out),
    ensures
        !internal_end(next, out) ==> (out is Run && exists|c: ClockReading|
            is_clock_reading(c.time()) && shifted(c.time(), config.refresh_exp_days * 86400)
                == Some(saved_expiry(out))),
{
}

/// Law: for a free email, sign-up asks to insert the user with a hash of the password; it
/// answers an internal error instead only when the call of bcrypt for this very password
/// failed (no random salt), never because of what the password is.
pub proof fn law_sign_up_hashes_every_password(
    config: JwtConfig,
    email: String,
    password: String,
    next: AuthFlow,
    out: AuthStep,
)
    requires
        step_spec(
            config,
            AuthFlow::RegisterLookup { email, password },
            AuthReply::UserLookup(None),
            next,
            out,
        ),
    ensures
        out is Run ==> asks_create(email, password, next, out),
        !(out is Run) ==> next is Finished && finishes_with(out, Failure::InternalServerError)
            && bcrypt_failed_for(password@),
{
}

/// Law: the refresh token handed out is never stored as it is: what is saved is a bcrypt
/// hash of it, which differs from it.
pub proof fn law_stored_refresh_hash_differs_from_token(
    config: JwtConfig,
    user_id: u128,
    t1: Timestamp,
    t2: Timestamp,
    t3: Timestamp,
    next: AuthFlow,
    out: AuthStep,
)
    requires
        tokens_issued(config, user_id, t1, t2, t3, next, out),
    ensures
        saved_hash(out) != handed_refresh_token(next),
        is_bcrypt_hash(saved_hash(out)),
        bcrypt_verifies(handed_refresh_token(next), saved_hash(out)) == Some(true),
{
}

/// The step asks to revoke the stored token `id`.
pub open spec fn revokes(out: AuthStep, id: u128) -> bool {
    out matches AuthStep::Run(AuthCommand::RevokeRefreshToken { token_id }) && token_id == id
}

/// A reply to a revocation, whether it went through or not.
pub open spec fn revocation_reply(r: AuthReply) -> bool {
    r is TokenRevoked || r is DatabaseError
}

proof fn lemma_logout_trace(
    config: JwtConfig,
    ids: Seq<u128>,
    flows: Seq<AuthFlow>,
    outs: Seq<AuthStep>,
    replies: Seq<AuthReply>,
    k: int,
)
    requires
        0 <= k <= ids.len(),
        flows.len() == ids.len() + 1,
        outs.len() == ids.len() + 1,
        replies.len() == ids.len(),
        revoke_next(ids, flows[0], outs[0]),
        forall|j: int|
            0 <= j < ids.len() ==> revocation_reply(#[trigger] replies[j]) && step_spec(
                config,
                flows[j],
                replies[j],
                flows[j + 1],
                outs[j + 1],
            ),
    ensures
        revoke_next(ids.skip(k), flows[k], outs[k]),
    decreases k,
{
    if k > 0 {
        lemma_logout_trace(config, ids, flows, outs, replies, k - 1);
        let prev = ids.skip(k - 1);
        assert(prev.len() > 0);
        assert(prev.drop_first() =~= ids.skip(k));
        assert(revocation_reply(replies[k - 1]));
    } else {
        assert(ids.skip(0) =~= ids);
    }
}

/// Law: signing out revokes every stored token of the user, each once and in the order they
/// were read, whether or not each revocation goes through, and then answers that the user is
/// signed out.
pub proof fn law_logout_revokes_every_token(
    config: JwtConfig,
    list: Vec<StoredRefreshToken>,
    flows: Seq<AuthFlow>,
    outs: Seq<AuthStep>,
    replies: Seq<AuthReply>,
)
    requires
        flows.len() == list@.len() + 1,
        outs.len() == list@.len() + 1,
        replies.len() == list@.len(),
        step_spec(config, AuthFlow::LogoutLookup, AuthReply::RefreshTokens(list), flows[0], outs[0]),
        forall|j: int|
            0 <= j < list@.len() ==> revocation_reply(#[trigger] replies[j]) && step_spec(
                config,
                flows[j],
                replies[j],
                flows[j + 1],
                outs[j + 1],
            ),
    ensures
        forall|j: int| 0 <= j < list@.len() ==> revokes(#[trigger] outs[j], list@[j].id),
        flows[list@.len() as int] is Finished,
        outs[list@.len() as int] matches AuthStep::Finish(Ok(AuthOutcome::LoggedOut)),
{
    let ids = ids_of(list@);
    assert forall|j: int| 0 <= j < list@.len() implies revokes(#[trigger] outs[j], list@[j].id) by {
        lemma_logout_trace(config, ids, flows, outs, replies, j);
        assert(ids.skip(j)[0] == ids[j]);
    }
    lemma_logout_trace(config, ids, flows, outs, replies, list@.len() as int);
    assert(ids.skip(list@.len() as int).len() == 0);
}

/// A bcrypt hash starts with `$`, which no signed token holds.
proof fn lemma_hash_is_not_token(h: Seq<char>, t: Seq<char>)
    requires
        is_bcrypt_hash(h),
        is_token_text(t),
    ensures
        h != t,
{
    reveal_strlit("$2b$12$");
    assert(h.take(7)[0] == h[0]);
    if h == t {
        assert(!crate::jwt::is_token_char(t[0]));
    }
}

fn internal_error() -> (r: (AuthFlow, AuthStep))
    ensures
        internal_end(r.0, r.1),
{
    (AuthFlow::Finished, AuthStep::Finish(Err(AppError::InternalServerError)))
}

fn fail(e: AppError) -> (r: (AuthFlow, AuthStep))
    ensures
        r.0 is Finished,
        finishes_with(r.1, e@),
{
    (AuthFlow::Finished, AuthStep::Finish(Err(e)))
}

/// The id of the first stored token that is not revoked, not expired at `now`, and whose
/// hash matches the presented token; a hash that cannot be checked does not match.
pub fn select_refresh_token(tokens: &Vec<StoredRefreshToken>, now: Timestamp, presented: &str) -> (r:
    Option<u128>)
    ensures
        r == first_usable(tokens@, now, presented@),
{
    let n = tokens.len();
    let mut i: usize = 0;
    assert(tokens@.skip(0) =~= tokens@);
    while i < n
        invariant
            n == tokens@.len(),
            i <= n,
            first_usable(tokens@, now, presented@) == first_usable(
                tokens@.skip(i as int),
                now,
                presented@,
            ),
        decreases n - i,
    {
        let t = &tokens[i];
        let ghost rest = tokens@.skip(i as int);
        assert(rest[0] == tokens@[i as int]);
        assert(rest.drop_first() =~= tokens@.skip(i + 1));
        if !(t.revoked || t.expires_at.before(&now)) {
            let matched = match verify_password(presented, t.token_hash.as_str()) {
                Ok(b) => b,
                Err(_) => false,
            };
            if matched {
                return Some(t.id);
            }
        }
        i += 1;
    }
    assert(tokens@.skip(n as int) =~= Seq::<StoredRefreshToken>::empty());
    None
}

fn revoke_first(ids: Vec<u128>) -> (r: (AuthFlow, AuthStep))
    ensures
        revoke_next(ids@, r.0, r.1),
{
    if ids.len() == 0 {
        return (AuthFlow::Finished, AuthStep::Finish(Ok(AuthOutcome::LoggedOut)));
    }
    let first = ids[0];
    let mut pending: Vec<u128> = Vec::new();
    let mut i: usize = 1;
    while i < ids.len()
        invariant
            1 <= i <= ids@.len(),
            pending@ == ids@.subrange(1, i as int),
        decreases ids@.len() - i,
    {
        pending.push(ids[i]);
        i += 1;
        assert(pending@ =~= ids@.subrange(1, i as int));
    }
    assert(pending@ =~= ids@.drop_first());
    (AuthFlow::LogoutRevoke { pending }, AuthStep::Run(AuthCommand::RevokeRefreshToken { token_id: first }))
}

fn token_ids(tokens: &Vec<StoredRefreshToken>) -> (r: Vec<u128>)
    ensures
        r@ == ids_of(tokens@),
{
    let mut ids: Vec<u128> = Vec::new();
    let mut i: usize = 0;
    while i < tokens.len()
        invariant
            i <= tokens@.len(),
            ids@ == ids_of(tokens@.take(i as int)),
        decreases tokens@.len() - i,
    {
        ids.push(tokens[i].id);
        i += 1;
        assert(ids@ =~= ids_of(tokens@.take(i as int)));
    }
    assert(tokens@.take(tokens@.len() as int) =~= tokens@);
    ids
}

impl AuthService {
    /// Starts a sign-up: first look the email up.
    pub fn register(email: String, password: String) -> (r: (AuthFlow, AuthStep))
        ensures
            r.0 == (AuthFlow::RegisterLookup { email, password }),
            r.1 == AuthStep::Run(AuthCommand::FindUserByEmail { email }),
    {
        let lookup = email.clone();
        (AuthFlow::RegisterLookup { email, password }, AuthStep::Run(AuthCommand::FindUserByEmail { email: lookup }))
    }

    /// Starts a sign-in: first look the email up.
    pub fn login(email: String, password: String) -> (r: (AuthFlow, AuthStep))
        ensures
            r.0 == (AuthFlow::LoginLookup { password }),
            r.1 == AuthStep::Run(AuthCommand::FindUserByEmail { email }),
    {
        (AuthFlow::LoginLookup { password }, AuthStep::Run(AuthCommand::FindUserByEmail { email }))
    }

    /// Starts a token refresh, given the presented token and what decoding it gave: a token
    /// that does not decode or is not a refresh token is refused (401 "Invalid refresh
    /// token"); otherwise the user's stored tokens are read.
    pub fn refresh_token(
        refresh_token: String,
        decoded: Result<Claims, jsonwebtoken::errors::Error>,
    ) -> (r: (AuthFlow, AuthStep))
        ensures
            match decoded {
                Ok(c) => if c.typ == TokenType::Refresh {
                    r.0 == (AuthFlow::RefreshLookup { presented: refresh_token, user_id: c.sub })
                        && r.1 == AuthStep::Run(AuthCommand::FindRefreshTokens { user_id: c.sub })
                } else {
                    r.0 is Finished && finishes_with(
                        r.1,
                        Failure::Unauthorized("Invalid refresh token"@),
                    )
                },
                Err(_) => r.0 is Finished && finishes_with(
                    r.1,
                    Failure::Unauthorized("Invalid refresh token"@),
                ),
            },
    {
        match verify_refresh_token(decoded) {
            Ok(claims) => (
                AuthFlow::RefreshLookup { presented: refresh_token, user_id: claims.sub },
                AuthStep::Run(AuthCommand::FindRefreshTokens { user_id: claims.sub }),
            ),
            Err(_) => fail(AppError::unauthorized("Invalid refresh token")),
        }
    }

    /// Starts a sign-out, given what decoding the presented refresh token gave: a token that
    /// does not decode or is not a refresh token is answered with an internal error;
    /// otherwise the user's stored tokens are read.
    pub fn logout(decoded: Result<Claims, jsonwebtoken::errors::Error>) -> (r: (AuthFlow, AuthStep))
        ensures
            match decoded {
                Ok(c) => if c.typ == TokenType::Refresh {
                    r.0 is LogoutLookup && r.1 == AuthStep::Run(
                        AuthCommand::FindRefreshTokens { user_id: c.sub },
                    )
                } else {
                    internal_end(r.0, r.1)
                },
                Err(_) => internal_end(r.0, r.1),
            },
    {
        match verify_refresh_token(decoded) {
            Ok(claims) => (
                AuthFlow::LogoutLookup,
                AuthStep::Run(AuthCommand::FindRefreshTokens { user_id: claims.sub }),
            ),
            Err(_) => internal_error(),
        }
    }

    /// Makes an access token and a refresh token for the user, and asks to save the hash of
    /// the refresh token with its expiry (now plus the configured days).
    pub fn issue_tokens(user_id: u128, config: &JwtConfig) -> (r: (AuthFlow, AuthStep))
        ensures
            issued(*config, user_id, r.0, r.1),
    {
        let access_token = generate_access_token(user_id, config);
        let refresh_token = generate_refresh_token(user_id, config);
        let refresh_hash = match &refresh_token {
            Ok(t) => hash_password(t.as_str()),
            Err(_) => Err(PasswordError),
        };
        let reading = now();
        let t3 = reading.timestamp();
        let ghost access = access_token;
        let ghost refresh = refresh_token;
        let ghost hashed = refresh_hash;
        let r = Self::save_issued(user_id, access_token, refresh_token, refresh_hash, t3, config);
        proof {
            if !internal_end(r.0, r.1) {
                let c1 = choose|c: ClockReading|
                    is_clock_reading(c.time()) && crate::jwt::made_token(
                        access,
                        access_claims(user_id, c.time(), *config),
                        *config,
                    );
                let c2 = choose|c: ClockReading|
                    is_clock_reading(c.time()) && crate::jwt::made_token(
                        refresh,
                        refresh_claims(user_id, c.time(), *config),
                        *config,
                    );
                let t = refresh->Ok_0;
                let h = hashed->Ok_0;
                lemma_hash_is_not_token(h@, t@);
                assert(tokens_issued(*config, user_id, c1.time(), c2.time(), reading.time(), r.0, r.1));
            }
        }
        r
    }

    /// What issuing tokens gives for what making the two tokens, hashing the refresh token
    /// and reading the clock gave: any failure, or an expiry that is not a date-time, is an
    /// internal error; otherwise the tokens wait for their hash to be saved with the expiry
    /// `now` plus the configured days.
    pub fn save_issued(
        user_id: u128,
        access_token: Result<String, TokenError>,
        refresh_token: Result<String, TokenError>,
        refresh_hash: Result<String, PasswordError>,
        now: Timestamp,
        config: &JwtConfig,
    ) -> (r: (AuthFlow, AuthStep))
        ensures
            match (access_token, refresh_token, refresh_hash) {
                (Ok(a), Ok(t), Ok(h)) => match shifted(now, config.refresh_exp_days * 86400) {
                    Some(e) => r.0 == (AuthFlow::SavingTokens {
                        tokens: AuthResponse { access_token: a, refresh_token: t },
                    }) && r.1 == AuthStep::Run(
                        AuthCommand::SaveRefreshToken { user_id, token_hash: h, expires_at: e },
                    ),
                    None => internal_end(r.0, r.1),
                },
                _ => internal_end(r.0, r.1),
            },
    {
        let access_token = match access_token {
            Ok(t) => t,
            Err(_) => return internal_error(),
        };
        let refresh_token = match refresh_token {
            Ok(t) => t,
            Err(_) => return internal_error(),
        };
        let refresh_hash = match refresh_hash {
            Ok(h) => h,
            Err(_) => return internal_error(),
        };
        let expires_at = match now.shift(config.refresh_exp_days as i128 * 86400) {
            Some(e) => e,
            None => return internal_error(),
        };
        (
            AuthFlow::SavingTokens { tokens: AuthResponse { access_token, refresh_token } },
            AuthStep::Run(
                AuthCommand::SaveRefreshToken { user_id, token_hash: refresh_hash, expires_at },
            ),
        )
    }

    /// What a sign-up does once the password was hashed: insert the user, or answer an
    /// internal error when hashing failed.
    pub fn create_user(email: String, password_hash: Result<String, PasswordError>) -> (r: (
        AuthFlow,
        AuthStep,
    ))
        ensures
            match password_hash {
                Ok(h) => r.0 is RegisterCreate && r.1 == AuthStep::Run(
                    AuthCommand::CreateUser { email, password_hash: h },
                ),
                Err(_) => internal_end(r.0, r.1),
            },
    {
        match password_hash {
            Ok(h) => (AuthFlow::RegisterCreate, AuthStep::Run(AuthCommand::CreateUser { email, password_hash: h })),
            Err(_) => internal_error(),
        }
    }

    /// Takes a flow one step further with the reply to the operation it asked for.
    pub fn step(flow: AuthFlow, reply: AuthReply, config: &JwtConfig) -> (r: (AuthFlow, AuthStep))
        ensures
            step_spec(*config, flow, reply, r.0, r.1),
    {
        match flow {
            AuthFlow::RegisterLookup { email, password } => match reply {
                AuthReply::UserLookup(Some(_)) => fail(AppError::conflict("Email already exists")),
                AuthReply::UserLookup(None) => Self::create_user(
                    email,
                    hash_password(password.as_str()),
                ),
                _ => internal_error(),
            },
            AuthFlow::RegisterCreate => match reply {
                AuthReply::UserCreated(u) => Self::issue_tokens(u.id, config),
                _ => internal_error(),
            },
            AuthFlow::LoginLookup { password } => match reply {
                AuthReply::UserLookup(None) => fail(AppError::unauthorized("Invalid credentials")),
                AuthReply::UserLookup(Some(u)) => match verify_password(
                    password.as_str(),
                    u.password_hash.as_str(),
                ) {
                    Err(_) => internal_error(),
                    Ok(false) => fail(AppError::unauthorized("Invalid credentials")),
                    Ok(true) => Self::issue_tokens(u.id, config),
                },
                _ => internal_error(),
            },
            AuthFlow::SavingTokens { tokens } => match reply {
                AuthReply::TokenSaved => (
                    AuthFlow::Finished,
                    AuthStep::Finish(Ok(AuthOutcome::Tokens(tokens))),
                ),
                _ => internal_error(),
            },
            AuthFlow::RefreshLookup { presented, user_id } => match reply {
                AuthReply::RefreshTokens(list) => {
                    let reading = now();
                    let t = reading.timestamp();
                    match select_refresh_token(&list, t, presented.as_str()) {
                        None => fail(AppError::bad_request("Refresh token not found")),
                        Some(id) => (
                            AuthFlow::RefreshRevoke { user_id },
                            AuthStep::Run(AuthCommand::RevokeRefreshToken { token_id: id }),
                        ),
                    }
                },
                _ => internal_error(),
            },
            AuthFlow::RefreshRevoke { user_id } => match reply {
                AuthReply::TokenRevoked => Self::issue_tokens(user_id, config),
                _ => internal_error(),
            },
            AuthFlow::LogoutLookup => match reply {
                AuthReply::RefreshTokens(list) => revoke_first(token_ids(&list)),
                _ => internal_error(),
            },
            AuthFlow::LogoutRevoke { pending } => match reply {
                AuthReply::TokenRevoked => revoke_first(pending),
                AuthReply::DatabaseError => revoke_first(pending),
                _ => internal_error(),
            },
            AuthFlow::Finished => internal_error(),
        }
    }
}

} // verus!
