//! Authentication: users and roles, the claims that signed tokens carry, and
//! the rules that decide which token is accepted where.
use vstd::prelude::*;

use crate::error::AuthError;
use crate::time::{unix_now, LATEST_CLOCK_READING, SECONDS_PER_MINUTE};

verus! {

/// The role of a user, which route grants are checked against.
#[derive(Clone, Copy, Debug, PartialEq, Eq, Structural)]
pub enum UserRole {
    Admin,
    Trainer,
}

/// The kind of a token. An access token is short-lived and opens the
/// protected routes; a refresh token is long-lived and only buys a new access
/// token.
#[derive(Clone, Copy, Debug, PartialEq, Eq, Structural)]
pub enum TokenType {
    Access,
    Refresh,
}

/// Why a presented token was not valid.
#[derive(Clone, Copy, Debug, PartialEq, Eq, Structural)]
pub enum TokenError {
    InvalidSignature,
    Expired,
    Malformed,
}

/// What a token states: who issued it, for whom, when it was issued and when
/// it expires (seconds since the epoch), and the user's id and role.
#[derive(Clone, Debug)]
pub struct Claims {
    pub iss: String,
    pub sub: String,
    pub exp: i64,
    pub iat: i64,
    pub user_id: usize,
    pub token_type: TokenType,
    pub role: UserRole,
}

/// A registered user, with the hash of the password.
#[derive(Clone, Debug)]
pub struct User {
    pub id: i32,
    pub username: String,
    pub hash: String,
    pub role: UserRole,
    pub created_at: i64,
    pub updated_at: i64,
}

/// A user about to be stored: the password is already hashed.
#[derive(Clone, Debug)]
pub struct NewUser {
    pub username: String,
    pub hash: String,
    pub role: UserRole,
}

/// A request to register a user.
#[derive(Clone, Debug)]
pub struct RegisterRequest {
    pub username: String,
    pub password: String,
    pub role: UserRole,
}

/// A request to log in.
#[derive(Clone, Debug)]
pub struct LoginRequest {
    pub username: String,
    pub password: String,
}

/// The tokens that a login hands out.
#[derive(Clone, Debug)]
pub struct LoginResult {
    pub token: String,
    pub refresh: String,
}

/// The access token that a refresh hands out.
#[derive(Clone, Debug)]
pub struct RefreshResult {
    pub token: String,
}

/// The issuer stamped on every token.
pub const ISSUER: &'static str = "Gym_Helper";

/// How long an access token lasts, in minutes.
pub const ACCESS_TOKEN_MINUTES: i64 = 30;

/// How long a refresh token lasts, in minutes (a day).
pub const REFRESH_TOKEN_MINUTES: i64 = 1440;

/// The name of a role, as tokens carry it.
pub open spec fn role_text(r: UserRole) -> Seq<char> {
    match r {
        UserRole::Admin => "Admin"@,
        UserRole::Trainer => "Trainer"@,
    }
}

/// The role that a name stands for: "Admin" is an administrator, any other
/// name a trainer.
pub open spec fn role_of(s: Seq<char>) -> UserRole {
    if s == "Admin"@ {
        UserRole::Admin
    } else {
        UserRole::Trainer
    }
}

impl UserRole {
    /// The name of the role.
    pub fn name(&self) -> (r: String)
        ensures
            r@ == role_text(*self),
    {
        match self {
            UserRole::Admin => String::from_str("Admin"),
            UserRole::Trainer => String::from_str("Trainer"),
        }
    }
}

impl From<String> for UserRole {
    fn from(role: String) -> (r: UserRole) {
        let admin = String::from_str("Admin");
        proof {
            reveal_strlit("Admin");
        }
        if role == admin {
            UserRole::Admin
        } else {
            UserRole::Trainer
        }
    }
}

impl vstd::std_specs::convert::FromSpecImpl<String> for UserRole {
    open spec fn obeys_from_spec() -> bool {
        true
    }

    open spec fn from_spec(v: String) -> UserRole {
        role_of(v@)
    }
}

/// Whether a token issued at `now` for `minutes` has a representable expiry.
pub open spec fn expiry_fits(now: int, minutes: int) -> bool {
    i64::MIN <= now + minutes * (SECONDS_PER_MINUTE as int) <= i64::MAX
}

/// Whether a token issued at `now` for `minutes` has a representable expiry.
pub fn expiry_fits_now(now: i64, minutes: i64) -> (r: bool)
    ensures
        r == expiry_fits(now as int, minutes as int),
{
    let end = (now as i128) + (minutes as i128) * (SECONDS_PER_MINUTE as i128);
    end >= i64::MIN as i128 && end <= i64::MAX as i128
}

/// The claims of a token issued at `now`, valid for `minutes`.
pub open spec fn issued(
    iss: Seq<char>,
    sub: Seq<char>,
    minutes: int,
    user_id: usize,
    role: UserRole,
    kind: TokenType,
    now: i64,
    c: Claims,
) -> bool {
    &&& c.iss@ == iss
    &&& c.sub@ == sub
    &&& c.iat == now
    &&& c.exp == now + minutes * (SECONDS_PER_MINUTE as int)
    &&& c.user_id == user_id
    &&& c.role == role
    &&& c.token_type == kind
}

/// The claims of a token issued at `now` to `sub` (user `user_id`, with
/// `role`), of kind `kind`, valid for `duration` minutes.
pub fn claims_at(
    iss: &str,
    sub: &str,
    duration: i64,
    user_id: usize,
    role: UserRole,
    kind: TokenType,
    now: i64,
) -> (r: Claims)
    requires
        expiry_fits(now as int, duration as int),
    ensures
        issued(iss@, sub@, duration as int, user_id, role, kind, now, r),
{
    Claims {
        iss: iss.to_owned(),
        sub: sub.to_owned(),
        exp: ((now as i128) + (duration as i128) * (SECONDS_PER_MINUTE as i128)) as i64,
        iat: now,
        user_id,
        token_type: kind,
        role,
    }
}

/// The claims of a token issued now, by the clock, valid for `duration`
/// minutes; `None` where the expiry, counted from the clock's reading, would
/// not be representable. Any duration that is not negative and fits after the
/// latest reading the clock can give succeeds.
pub fn generate_claims(
    iss: &str,
    sub: &str,
    duration: i64,
    user_id: usize,
    role: UserRole,
    kind: TokenType,
) -> (r: Option<Claims>)
    ensures
        r is Some ==> issued(iss@, sub@, duration as int, user_id, role, kind, r->Some_0.iat, r->Some_0),
        r is Some ==> 0 <= r->Some_0.iat <= LATEST_CLOCK_READING,
        0 <= duration && expiry_fits(LATEST_CLOCK_READING as int, duration as int) ==> r is Some,
{
    let now = unix_now();
    if !expiry_fits_now(now, duration) {
        return None;
    }
    Some(claims_at(iss, sub, duration, user_id, role, kind, now))
}

/// The decision of the access check on the protected routes, given the
/// presented bearer token after signature and expiry validation (`None` when
/// no token was presented).
pub open spec fn access_outcome(presented: Option<Result<Claims, TokenError>>) -> Result<
    UserRole,
    AuthError,
> {
    match presented {
        None => Err(AuthError::MissingToken),
        Some(Err(_)) => Err(AuthError::InvalidToken),
        Some(Ok(c)) => match c.token_type {
            TokenType::Access => Ok(c.role),
            TokenType::Refresh => Err(AuthError::InvalidTokenType),
        },
    }
}

/// The decision of the refresh endpoint at `now`, given the presented bearer
/// token after validation: a refresh token buys an access token for the same
/// subject, user and role.
pub open spec fn refresh_outcome(presented: Option<Result<Claims, TokenError>>, now: i64, r: Result<
    Claims,
    AuthError,
>) -> bool {
    match presented {
        None => r == Err::<Claims, AuthError>(AuthError::MissingToken),
        Some(Err(_)) => r == Err::<Claims, AuthError>(AuthError::InvalidToken),
        Some(Ok(c)) => match c.token_type {
            TokenType::Access => r == Err::<Claims, AuthError>(AuthError::InvalidTokenType),
            TokenType::Refresh => r is Ok && issued(
                c.iss@,
                c.sub@,
                ACCESS_TOKEN_MINUTES as int,
                c.user_id,
                c.role,
                TokenType::Access,
                now,
                r->Ok_0,
            ),
        },
    }
}

/// The access check: no token is `MissingToken`, a token that failed
/// validation is `InvalidToken`, a refresh token is `InvalidTokenType`; an
/// access token authenticates its role.
pub fn check_access_token(presented: &Option<Result<Claims, TokenError>>) -> (r: Result<
    UserRole,
    AuthError,
>)
    ensures
        r == access_outcome(*presented),
{
    match presented {
        None => Err(AuthError::MissingToken),
        Some(Err(_)) => Err(AuthError::InvalidToken),
        Some(Ok(c)) => match c.token_type {
            TokenType::Access => Ok(c.role),
            TokenType::Refresh => Err(AuthError::InvalidTokenType),
        },
    }
}

/// A role-gated route: the authenticated role must be among `required`.
pub fn authorize(role: UserRole, required: &Vec<UserRole>) -> (r: Result<(), AuthError>)
    ensures
        r is Ok <==> required@.contains(role),
        r is Err ==> r->Err_0 == AuthError::Forbidden,
{
    let mut i: usize = 0;
    while i < required.len()
        invariant
            0 <= i <= required.len(),
            forall|j: int| 0 <= j < i ==> required@[j] != role,
        decreases required.len() - i,
    {
        if required[i] == role {
            assert(required@[i as int] == role);
            return Ok(());
        }
        i += 1;
    }
    Err(AuthError::Forbidden)
}

/// The refresh endpoint at `now`: a refresh token buys a new access token for
/// the same issuer, subject, user and role, valid for the access duration. An
/// access token is `InvalidTokenType`; a missing or invalid one is
/// `MissingToken` or `InvalidToken`.
pub fn refresh_claims(presented: &Option<Result<Claims, TokenError>>, now: i64) -> (r: Result<
    Claims,
    AuthError,
>)
    requires
        expiry_fits(now as int, ACCESS_TOKEN_MINUTES as int),
    ensures
        refresh_outcome(*presented, now, r),
{
    match presented {
        None => Err(AuthError::MissingToken),
        Some(Err(_)) => Err(AuthError::InvalidToken),
        Some(Ok(c)) => match c.token_type {
            TokenType::Access => Err(AuthError::InvalidTokenType),
            TokenType::Refresh => Ok(
                claims_at(
                    c.iss.as_str(),
                    c.sub.as_str(),
                    ACCESS_TOKEN_MINUTES,
                    c.user_id,
                    c.role,
                    TokenType::Access,
                    now,
                ),
            ),
        },
    }
}

#[verifier::external_type_specification]
#[verifier::external_body]
pub struct ExPasswordHashError(argon2::password_hash::Error);

/// Whether Argon2 accepts `password` against the PHC hash string `hash`.
pub uninterp spec fn argon2_accepts(password: Seq<char>, hash: Seq<char>) -> bool;

/// Relies on argon2's `PasswordHash::new`, which parses a PHC hash string, and
/// on `PasswordVerifier::verify_password` of the default `Argon2`, which hashes
/// the password again with the algorithm, parameters and salt that the string
/// records and compares the outputs. The answer depends on the two texts alone;
/// a string that does not parse accepts nothing.
#[verifier::external_body]
fn argon2_verify(password: &str, hash: &str) -> (r: bool)
    ensures
        r == argon2_accepts(password@, hash@),
{
    match argon2::password_hash::PasswordHash::new(hash) {
        Ok(parsed) => argon2::PasswordVerifier::verify_password(
            &argon2::Argon2::default(),
            password.as_bytes(),
            &parsed,
        ).is_ok(),
        Err(_) => false,
    }
}

/// Relies on argon2's `PasswordHasher::hash_password` of the default `Argon2`,
/// with a salt that `SaltString::generate` draws from the operating system's
/// generator, and on the `Display` of the resulting `PasswordHash` (a PHC
/// string). The string records the algorithm, version, parameters and salt
/// that `PasswordVerifier::verify_password` hashes with again, so the password
/// is accepted against it. With the default parameters and a generated salt,
/// hashing fails only for a password of more than `u32::MAX` bytes (at most
/// four bytes per character). The salt is random, so the text itself is not
/// named.
#[verifier::external_body]
fn argon2_hash(password: &str) -> (r: Result<String, argon2::password_hash::Error>)
    ensures
        r is Ok ==> argon2_accepts(password@, r->Ok_0@),
        password@.len() < 0x4000_0000 ==> r is Ok,
{
    let salt = argon2::password_hash::SaltString::generate(
        &mut argon2::password_hash::rand_core::OsRng,
    );
    argon2::PasswordHasher::hash_password(&argon2::Argon2::default(), password.as_bytes(), &salt).map(
        |h| h.to_string(),
    )
}

/// Whether `password` matches the stored hash `hash`.
pub fn verify_password(password: &str, hash: &str) -> (r: bool)
    ensures
        r == argon2_accepts(password@, hash@),
{
    argon2_verify(password, hash)
}

/// Registration: the user of `req` with its password hashed under a fresh
/// salt, ready to be stored; the stored hash accepts the password. Fails with
/// `HashingFailed` only where hashing fails, which an ordinary password never
/// makes it do.
pub fn register_user(req: &RegisterRequest) -> (r: Result<NewUser, AuthError>)
    ensures
        r is Ok ==> r->Ok_0.username@ == req.username@ && r->Ok_0.role == req.role,
        r is Ok ==> argon2_accepts(req.password@, r->Ok_0.hash@),
        r is Err ==> r->Err_0 == AuthError::HashingFailed,
        req.password@.len() < 0x4000_0000 ==> r is Ok,
{
    match argon2_hash(req.password.as_str()) {
        Ok(hash) => Ok(NewUser { username: req.username.clone(), hash, role: req.role }),
        Err(_) => Err(AuthError::HashingFailed),
    }
}

/// The decision of a login at `now`, given the user found under the
/// username (if any) and whether the password matched its hash: a pair of an
/// access and a refresh token's claims, both for the user's name, id and role.
pub open spec fn login_outcome(
    user: Option<User>,
    password_ok: bool,
    now: i64,
    r: Result<(Claims, Claims), AuthError>,
) -> bool {
    match user {
        None => r == Err::<(Claims, Claims), AuthError>(AuthError::InvalidCredentials),
        Some(u) => if !password_ok {
            r == Err::<(Claims, Claims), AuthError>(AuthError::InvalidCredentials)
        } else {
            &&& r is Ok
            &&& issued(
                "Gym_Helper"@,
                u.username@,
                ACCESS_TOKEN_MINUTES as int,
                u.id as usize,
                u.role,
                TokenType::Access,
                now,
                r->Ok_0.0,
            )
            &&& issued(
                "Gym_Helper"@,
                u.username@,
                REFRESH_TOKEN_MINUTES as int,
                u.id as usize,
                u.role,
                TokenType::Refresh,
                now,
                r->Ok_0.1,
            )
        },
    }
}

/// Login at `now`, once the password was checked: an unknown user or a wrong
/// password is `InvalidCredentials`; otherwise the claims of an access token
/// and of a refresh token, both for the user's name, id and role.
pub fn login_checked(user: &Option<User>, password_ok: bool, now: i64) -> (r: Result<
    (Claims, Claims),
    AuthError,
>)
    requires
        expiry_fits(now as int, ACCESS_TOKEN_MINUTES as int),
        expiry_fits(now as int, REFRESH_TOKEN_MINUTES as int),
    ensures
        login_outcome(*user, password_ok, now, r),
{
    match user {
        None => Err(AuthError::InvalidCredentials),
        Some(u) => {
            if !password_ok {
                return Err(AuthError::InvalidCredentials);
            }
            proof {
                reveal_strlit("Gym_Helper");
            }
            let access = claims_at(
                ISSUER,
                u.username.as_str(),
                ACCESS_TOKEN_MINUTES,
                u.id as usize,
                u.role,
                TokenType::Access,
                now,
            );
            let refresh = claims_at(
                ISSUER,
                u.username.as_str(),
                REFRESH_TOKEN_MINUTES,
                u.id as usize,
                u.role,
                TokenType::Refresh,
                now,
            );
            Ok((access, refresh))
        },
    }
}

/// Login at `now`: checks `password` against the hash of the user found under
/// the username (if any), then decides as `login_checked` does.
pub fn login(user: &Option<User>, password: &str, now: i64) -> (r: Result<(Claims, Claims), AuthError>)
    requires
        expiry_fits(now as int, ACCESS_TOKEN_MINUTES as int),
        expiry_fits(now as int, REFRESH_TOKEN_MINUTES as int),
    ensures
        login_outcome(
            *user,
            user is Some && argon2_accepts(password@, user->Some_0.hash@),
            now,
            r,
        ),
{
    let ok = match user {
        Some(u) => verify_password(password, u.hash.as_str()),
        None => false,
    };
    login_checked(user, ok, now)
}

/// The two token endpoints are strict duals: the protected routes refuse a
/// refresh token and the refresh endpoint refuses an access token, each with
/// `InvalidTokenType`; a refresh token buys an access token whose subject,
/// user and role are those of the refresh token.
pub proof fn lemma_token_kinds_are_dual(c: Claims, now: i64, r: Result<Claims, AuthError>)
    requires
        refresh_outcome(Some(Ok(c)), now, r),
    ensures
        c.token_type == TokenType::Access ==> r == Err::<Claims, AuthError>(
            AuthError::InvalidTokenType,
        ) && access_outcome(Some(Ok(c))) == Ok::<UserRole, AuthError>(c.role),
        c.token_type == TokenType::Refresh ==> access_outcome(Some(Ok(c))) == Err::<
            UserRole,
            AuthError,
        >(AuthError::InvalidTokenType) && r is Ok && r->Ok_0.token_type == TokenType::Access
            && r->Ok_0.sub@ == c.sub@ && r->Ok_0.user_id == c.user_id && r->Ok_0.role == c.role,
{
}

} // verus!
