use vstd::prelude::*;

use crate::text::text_eq;

verus! {

/// Access role of a controller user. Roles are ordered:
/// `Admin` above `Operator` above `Viewer`.
#[derive(Debug, Clone, Copy, PartialEq, Eq, Structural)]
pub enum Role {
    Admin,
    Operator,
    Viewer,
}

/// The lowercase wire name of a role.
pub open spec fn role_name(r: Role) -> Seq<char> {
    match r {
        Role::Admin => "admin"@,
        Role::Operator => "operator"@,
        Role::Viewer => "viewer"@,
    }
}

/// The role whose wire name is `s`, if any.
pub open spec fn role_named(s: Seq<char>) -> Option<Role> {
    if s == "admin"@ {
        Some(Role::Admin)
    } else if s == "operator"@ {
        Some(Role::Operator)
    } else if s == "viewer"@ {
        Some(Role::Viewer)
    } else {
        None
    }
}

/// Rank of a role in the hierarchy; a higher rank includes the rights of the lower ones.
pub open spec fn role_rank(r: Role) -> int {
    match r {
        Role::Admin => 3,
        Role::Operator => 2,
        Role::Viewer => 1,
    }
}

impl Role {
    pub fn as_str(self) -> (r: &'static str)
        ensures
            r@ == role_name(self),
    {
        match self {
            Role::Admin => "admin",
            Role::Operator => "operator",
            Role::Viewer => "viewer",
        }
    }

    pub fn from_str(s: &str) -> (r: Option<Role>)
        ensures
            r == role_named(s@),
    {
        if text_eq(s, "admin") {
            Some(Role::Admin)
        } else if text_eq(s, "operator") {
            Some(Role::Operator)
        } else if text_eq(s, "viewer") {
            Some(Role::Viewer)
        } else {
            None
        }
    }

    pub fn can_manage_users(self) -> (r: bool)
        ensures
            r == (self == Role::Admin),
    {
        match self {
            Role::Admin => true,
            _ => false,
        }
    }

    pub fn can_manage_enrollment(self) -> (r: bool)
        ensures
            r == (self == Role::Admin || self == Role::Operator),
    {
        match self {
            Role::Admin | Role::Operator => true,
            Role::Viewer => false,
        }
    }

    pub fn can_manage_devices(self) -> (r: bool)
        ensures
            r == (self == Role::Admin || self == Role::Operator),
    {
        match self {
            Role::Admin | Role::Operator => true,
            Role::Viewer => false,
        }
    }

    pub fn can_manage_policies(self) -> (r: bool)
        ensures
            r == (self == Role::Admin || self == Role::Operator),
    {
        match self {
            Role::Admin | Role::Operator => true,
            Role::Viewer => false,
        }
    }

    pub fn can_ingest_audit(self) -> (r: bool)
        ensures
            r == (self == Role::Admin || self == Role::Operator),
    {
        match self {
            Role::Admin | Role::Operator => true,
            Role::Viewer => false,
        }
    }

    pub fn can_read(self) -> (r: bool)
        ensures
            r,
    {
        true
    }
}

/// Numeric rank of a role: admin 3, operator 2, viewer 1.
pub fn role_level(role: Role) -> (r: u8)
    ensures
        r == role_rank(role),
{
    match role {
        Role::Admin => 3,
        Role::Operator => 2,
        Role::Viewer => 1,
    }
}

/// Claims carried by a controller session token.
pub struct Claims {
    pub sub: String,
    pub username: String,
    pub role: Role,
    pub exp: i64,
    pub iat: i64,
}

pub struct LoginRequest {
    pub username: String,
    pub password: String,
}

pub struct LoginResponse {
    pub token: String,
    pub expires_at: String,
    pub role: Role,
    pub username: String,
}

/// Security settings of the controller.
pub struct ControllerSecurityPolicy {
    pub jwt_secret: String,
    pub token_ttl_hours: i64,
    pub bcrypt_cost: u32,
    pub require_https: bool,
    pub max_login_attempts: u32,
}

impl ControllerSecurityPolicy {
    /// The default settings around a given signing secret: tokens live 24 hours,
    /// bcrypt cost 12, HTTPS not enforced, five login attempts.
    pub fn with_secret(jwt_secret: String) -> (r: ControllerSecurityPolicy)
        ensures
            r.jwt_secret == jwt_secret,
            r.token_ttl_hours == 24,
            r.bcrypt_cost == 12,
            !r.require_https,
            r.max_login_attempts == 5,
    {
        ControllerSecurityPolicy {
            jwt_secret,
            token_ttl_hours: 24,
            bcrypt_cost: 12,
            require_https: false,
            max_login_attempts: 5,
        }
    }
}

/// The signing secret used when none is configured.
pub open spec fn default_jwt_secret() -> Seq<char> {
    "dev-insecure-secret-change-me"@
}

impl ControllerSecurityPolicy {
    /// The controller's settings from the configured signing secret (the
    /// `WS_CONTROLLER_JWT_SECRET` setting, `None` where it is unset): that
    /// secret, or the development default, with the default settings.
    pub fn from_configured_secret(configured: Option<String>) -> (r: ControllerSecurityPolicy)
        ensures
            r.jwt_secret@ == match configured {
                Some(s) => s@,
                None => default_jwt_secret(),
            },
            r.token_ttl_hours == 24,
            r.bcrypt_cost == 12,
            !r.require_https,
            r.max_login_attempts == 5,
    {
        let secret = match configured {
            Some(s) => s,
            None => String::from_str("dev-insecure-secret-change-me"),
        };
        ControllerSecurityPolicy::with_secret(secret)
    }
}

/// The compact JSON Web Token that `jsonwebtoken::encode` signs with HS256 and
/// the default header, under `secret`, over the claims `sub`, `username`,
/// `role`, `exp` and `iat`, written as a JSON object whose members come in
/// key order.
pub uninterp spec fn session_jwt(
    secret: Seq<char>,
    sub: Seq<char>,
    username: Seq<char>,
    role: Seq<char>,
    exp: int,
    iat: int,
) -> Seq<char>;

/// The claims (`sub`, `username`, `role`, `exp`, `iat`) that
/// `jsonwebtoken::decode` reads from `token` when its HS256 signature checks
/// under `secret` and it carries a non-negative `exp`, expiry left unchecked;
/// `None` otherwise.
pub uninterp spec fn session_jwt_claims(secret: Seq<char>, token: Seq<char>) -> Option<
    (Seq<char>, Seq<char>, Seq<char>, int, int),
>;

/// The RFC 3339 text that chrono writes for the UTC instant `secs` seconds and
/// `nanos` nanoseconds after the epoch, or `None` where chrono has no such
/// instant.
pub uninterp spec fn rfc3339_text(secs: int, nanos: int) -> Option<Seq<char>>;

/// Signs session claims with `jsonwebtoken::encode` (HS256, default header)
/// under `secret`; the token is named `session_jwt`. The claims are written as
/// a JSON object of strings (`sub`, `username`, `role`) and integers (`exp`,
/// `iat`), in key order, since a `BTreeMap` holds them. `encode` fails only
/// where the key's family differs from the header's algorithm or the claims
/// cannot be written as JSON; an HMAC key and the HS256 default header agree,
/// and a map of strings to strings and integers is always written, so the
/// call succeeds. Its token joins the header, the claims and the signature
/// with dots, so it is never empty.
#[verifier::external_body]
fn encode_session_token(secret: &str, sub: &str, username: &str, role: &str, exp: i64, iat: i64) -> (r:
    Result<String, String>)
    ensures
        r is Ok,
        r matches Ok(t) ==> t@ == session_jwt(secret@, sub@, username@, role@, exp as int, iat as int),
        r matches Ok(t) ==> t@.len() > 0,
{
    let claims = std::collections::BTreeMap::from([
        ("sub", serde_json::Value::from(sub)),
        ("username", serde_json::Value::from(username)),
        ("role", serde_json::Value::from(role)),
        ("exp", serde_json::Value::from(exp)),
        ("iat", serde_json::Value::from(iat)),
    ]);
    let key = jsonwebtoken::EncodingKey::from_secret(secret.as_bytes());
    jsonwebtoken::encode(&jsonwebtoken::Header::default(), &claims, &key).map_err(|e| e.to_string())
}

/// Checks a token's HS256 signature under `secret` with `jsonwebtoken::decode`
/// (expiry left to the caller) and reads its claims; the outcome is named
/// `session_jwt_claims`. A token signed by `encode_session_token` under the
/// same secret, with a non-negative `exp`, reads back as the claims it was
/// signed over.
#[verifier::external_body]
fn decode_session_token(secret: &str, token: &str) -> (r: Option<(String, String, String, i64, i64)>)
    ensures
        match r {
            Some(c) => session_jwt_claims(secret@, token@) == Some(
                (c.0@, c.1@, c.2@, c.3 as int, c.4 as int),
            ),
            None => session_jwt_claims(secret@, token@) is None,
        },
        forall|k: (Seq<char>, Seq<char>, Seq<char>, i64, i64)|
            0 <= k.3 && token@ == #[trigger] session_jwt(secret@, k.0, k.1, k.2, k.3 as int, k.4 as int)
                ==> r.is_some() && r.unwrap().0@ == k.0 && r.unwrap().1@ == k.1 && r.unwrap().2@ == k.2
                && r.unwrap().3 == k.3 && r.unwrap().4 == k.4,
{
    let mut validation = jsonwebtoken::Validation::default();
    validation.validate_exp = false;
    let key = jsonwebtoken::DecodingKey::from_secret(secret.as_bytes());
    let data = jsonwebtoken::decode::<std::collections::BTreeMap<String, serde_json::Value>>(token, &key, &validation).ok()?;
    let c = data.claims;
    Some((
        c.get("sub")?.as_str()?.to_string(),
        c.get("username")?.as_str()?.to_string(),
        c.get("role")?.as_str()?.to_string(),
        c.get("exp")?.as_i64()?,
        c.get("iat")?.as_i64()?,
    ))
}

/// Formats an instant with chrono's `DateTime::from_timestamp` and
/// `to_rfc3339`; the text is named `rfc3339_text`.
#[verifier::external_body]
fn instant_rfc3339(secs: i64, nanos: u32) -> (r: Option<String>)
    ensures
        match r {
            Some(t) => rfc3339_text(secs as int, nanos as int) == Some(t@),
            None => rfc3339_text(secs as int, nanos as int) is None,
        },
{
    match chrono::DateTime::from_timestamp(secs, nanos) {
        Some(t) => Some(t.to_rfc3339()),
        None => None,
    }
}

/// When a token issued at `now` (seconds) expires: `ttl_hours` hours later.
pub open spec fn session_expiry(now: int, ttl_hours: int) -> int {
    now + ttl_hours * 3600
}

/// Tokens stay accepted this many seconds past their expiry.
pub open spec fn expiry_leeway() -> int {
    60
}

/// A freshly signed session token and its expiry time.
pub struct IssuedToken {
    pub token: String,
    pub expires_at: String,
}

pub enum AuthError {
    InvalidCredentials,
    InvalidToken,
    Forbidden,
    InvalidRole,
    Internal(String),
}

/// What `bcrypt::verify` answers for a password and a stored hash: whether they
/// match, or the text of the error it reports for a malformed hash.
pub uninterp spec fn bcrypt_verify_outcome(password: Seq<char>, hash: Seq<char>) -> Result<bool, Seq<char>>;

/// Calls `bcrypt::verify(password, hash)`. That function is deterministic: it
/// splits the stored hash into cost, salt and digest, re-hashes the password with
/// them and compares; the outcome is named `bcrypt_verify_outcome`.
#[verifier::external_body]
fn bcrypt_verify(password: &str, hash: &str) -> (r: Result<bool, String>)
    ensures
        match (r, bcrypt_verify_outcome(password@, hash@)) {
            (Ok(a), Ok(b)) => a == b,
            (Err(e), Err(m)) => e@ == m,
            _ => false,
        },
{
    match bcrypt::verify(password, hash) {
        Ok(b) => Ok(b),
        Err(e) => Err(e.to_string()),
    }
}

/// The value of a decimal digit character, or -1 for any other character.
pub open spec fn digit_value(c: char) -> int {
    if '0' <= c <= '9' {
        c as int - '0' as int
    } else {
        -1
    }
}

/// The start of every hash that `bcrypt::hash` writes at cost `cost`: the
/// version `$2b$`, the cost as two decimal digits, and `$`.
pub open spec fn bcrypt_prefix(cost: int) -> Seq<char> {
    "$2b$"@ + seq![crate::text::digit_char(cost / 10), crate::text::digit_char(cost % 10)] + "$"@
}

/// The cost written in a bcrypt hash text: the two digits after `$2b$`.
pub open spec fn bcrypt_hash_cost(h: Seq<char>) -> int {
    digit_value(h[4]) * 10 + digit_value(h[5])
}

/// The costs that bcrypt accepts.
pub open spec fn bcrypt_cost_allowed(cost: int) -> bool {
    4 <= cost <= 31
}

/// Calls `bcrypt::hash(password, cost)`. bcrypt draws a fresh random salt,
/// so the hash itself is not determined here, and drawing it may fail. What the
/// crate's source fixes, and this states: a cost outside 4..=31 is refused
/// before hashing; a hash it returns is 60 characters long, starts with `$2b$`,
/// the cost in two digits and `$`, and verifies for the same password.
#[verifier::external_body]
fn bcrypt_hash(password: &str, cost: u32) -> (r: Result<String, String>)
    ensures
        match r {
            Ok(h) => bcrypt_cost_allowed(cost as int) && h@.len() == 60 && h@.subrange(0, 7)
                == bcrypt_prefix(cost as int) && bcrypt_verify_outcome(password@, h@) == Ok::<
                bool,
                Seq<char>,
            >(true),
            Err(_) => true,
        },
        !bcrypt_cost_allowed(cost as int) ==> r is Err,
{
    bcrypt::hash(password, cost).map_err(|e| e.to_string())
}

/// Every digit reads back as its value.
proof fn lemma_digit_round_trip(d: int)
    requires
        0 <= d <= 9,
    ensures
        digit_value(crate::text::digit_char(d)) == d,
{
}

/// A hash that starts with the prefix of an allowed cost carries that cost.
proof fn lemma_prefix_cost(h: Seq<char>, cost: int)
    requires
        bcrypt_cost_allowed(cost),
        h.len() >= 7,
        h.subrange(0, 7) == bcrypt_prefix(cost),
    ensures
        bcrypt_hash_cost(h) == cost,
{
    reveal_strlit("$2b$");
    reveal_strlit("$");
    assert(h[4] == h.subrange(0, 7)[4]);
    assert(h[5] == h.subrange(0, 7)[5]);
    assert(bcrypt_prefix(cost)[4] == crate::text::digit_char(cost / 10));
    assert(bcrypt_prefix(cost)[5] == crate::text::digit_char(cost % 10));
    lemma_digit_round_trip(cost / 10);
    lemma_digit_round_trip(cost % 10);
}

/// The user the controller creates when none exists: `admin` with password
/// `admin`, hashed by bcrypt at the given cost, and role `admin`; `None` when
/// users already exist. A failure to hash, which a cost outside 4..=31 always
/// is, is reported as `NotFound`.
pub fn default_admin(user_count: i64, id: String, bcrypt_cost: u32, created_at: String) -> (r: Result<
    Option<crate::models::UserRow>,
    crate::models::DbError,
>)
    ensures
        user_count != 0 ==> r matches Ok(None),
        user_count == 0 ==> match r {
            Ok(Some(u)) => u.id == id && u.username@ == "admin"@ && u.role@ == "admin"@ && u.created_at
                == created_at && bcrypt_hash_cost(u.password_hash@) == bcrypt_cost && bcrypt_verify_outcome(
                "admin"@,
                u.password_hash@,
            ) == Ok::<bool, Seq<char>>(true),
            Ok(None) => false,
            Err(e) => e is NotFound,
        },
        user_count == 0 && !bcrypt_cost_allowed(bcrypt_cost as int) ==> r is Err,
{
    if user_count != 0 {
        return Ok(None);
    }
    match bcrypt_hash("admin", bcrypt_cost) {
        Err(m) => Err(crate::models::DbError::NotFound(m)),
        Ok(hash) => {
            proof {
                lemma_prefix_cost(hash@, bcrypt_cost as int);
            }
            Ok(
            Some(
                crate::models::UserRow {
                    id,
                    username: String::from_str("admin"),
                    password_hash: hash,
                    role: String::from_str(Role::Admin.as_str()),
                    created_at,
                },
            ),
        )
        },
    }
}

/// The claims of a session token issued at `now` (seconds since the epoch)
/// for a user: it expires `ttl_hours` hours later.
pub fn session_claims(user_id: &str, username: &str, role: Role, now: i64, ttl_hours: i64) -> (r: Claims)
    requires
        i64::MIN <= now + ttl_hours * 3600 <= i64::MAX,
        i64::MIN <= ttl_hours * 3600 <= i64::MAX,
    ensures
        r.sub@ == user_id@,
        r.username@ == username@,
        r.role == role,
        r.iat == now,
        r.exp == now + ttl_hours * 3600,
{
    Claims {
        sub: String::from_str(user_id),
        username: String::from_str(username),
        role,
        exp: now + ttl_hours * 3600,
        iat: now,
    }
}

/// The stored credentials of one user: id, bcrypt hash and role name.
pub struct UserCredentials {
    pub user_id: String,
    pub password_hash: String,
    pub role: String,
}

/// The library's record of a user row, as plain views.
pub open spec fn credentials_view(row: Option<UserCredentials>) -> Option<(Seq<char>, Seq<char>, Seq<char>)> {
    match row {
        None => None,
        Some(c) => Some((c.user_id@, c.password_hash@, c.role@)),
    }
}

/// Authentication and authorization decisions of the controller.
pub struct AuthService {
    policy: ControllerSecurityPolicy,
}

impl AuthService {
    pub closed spec fn spec_policy(&self) -> &ControllerSecurityPolicy {
        &self.policy
    }

    pub fn new(policy: ControllerSecurityPolicy) -> (r: AuthService)
        ensures
            r.spec_policy() == policy,
    {
        AuthService { policy }
    }

    pub fn policy(&self) -> (r: &ControllerSecurityPolicy)
        ensures
            r == self.spec_policy(),
    {
        &self.policy
    }

    /// Checks a login against the stored row of the user (`None` when no user has
    /// that name). Unknown users and wrong passwords are `InvalidCredentials`; a
    /// stored hash that bcrypt cannot read is `Internal` with bcrypt's message; a
    /// stored role that is not a known role name is `InvalidRole`.
    pub fn check_credentials(&self, row: Option<UserCredentials>, password: &str) -> (r: Result<
        (String, Role),
        AuthError,
    >)
        ensures
            match credentials_view(row) {
                None => r matches Err(AuthError::InvalidCredentials),
                Some((id, hash, role)) => match bcrypt_verify_outcome(password@, hash) {
                    Err(m) => r matches Err(AuthError::Internal(e)) && e@ == m,
                    Ok(false) => r matches Err(AuthError::InvalidCredentials),
                    Ok(true) => match role_named(role) {
                        Some(rl) => r matches Ok((uid, rr)) && uid@ == id && rr == rl,
                        None => r matches Err(AuthError::InvalidRole),
                    },
                },
            },
    {
        match row {
            None => Err(AuthError::InvalidCredentials),
            Some(c) => {
                match bcrypt_verify(password, &c.password_hash) {
                    Err(m) => Err(AuthError::Internal(m)),
                    Ok(valid) => {
                        if !valid {
                            Err(AuthError::InvalidCredentials)
                        } else {
                            match Role::from_str(c.role.as_str()) {
                                Some(role) => Ok((c.user_id, role)),
                                None => Err(AuthError::InvalidRole),
                            }
                        }
                    },
                }
            },
        }
    }

    /// Signs a session token for a user at `now` (seconds and nanoseconds since
    /// the epoch), valid for the policy's lifetime; the expiry is also given as
    /// RFC 3339 text. The token is issued exactly when the expiry lies in the
    /// range of `i64` and of chrono's calendar; otherwise the answer is an
    /// `Internal` error.
    pub fn issue_token(&self, user_id: &str, username: &str, role: Role, now: (i64, u32)) -> (r: Result<
        IssuedToken,
        AuthError,
    >)
        ensures
            r matches Ok(t) ==> t.token@ == session_jwt(
                self.spec_policy().jwt_secret@,
                user_id@,
                username@,
                role_name(role),
                session_expiry(now.0 as int, self.spec_policy().token_ttl_hours as int),
                now.0 as int,
            ) && rfc3339_text(
                session_expiry(now.0 as int, self.spec_policy().token_ttl_hours as int),
                now.1 as int,
            ) == Some(t.expires_at@),
            r matches Ok(t) ==> t.token@.len() > 0,
            r is Err ==> r matches Err(AuthError::Internal(_)),
            r is Ok <==> (i64::MIN <= session_expiry(now.0 as int, self.spec_policy().token_ttl_hours as int)
                <= i64::MAX && rfc3339_text(
                session_expiry(now.0 as int, self.spec_policy().token_ttl_hours as int),
                now.1 as int,
            ) is Some),
    {
        let exp_wide: i128 = now.0 as i128 + self.policy.token_ttl_hours as i128 * 3600;
        if exp_wide < i64::MIN as i128 || exp_wide > i64::MAX as i128 {
            return Err(AuthError::Internal(String::from_str("token lifetime out of range")));
        }
        let exp = exp_wide as i64;
        let expires_at = match instant_rfc3339(exp, now.1) {
            Some(t) => t,
            None => {
                return Err(AuthError::Internal(String::from_str("token lifetime out of range")));
            },
        };
        match encode_session_token(self.policy.jwt_secret.as_str(), user_id, username, role.as_str(), exp, now.0) {
            Ok(token) => Ok(IssuedToken { token, expires_at }),
            Err(m) => Err(AuthError::Internal(m)),
        }
    }

    /// Answers a login at `now` (seconds and nanoseconds since the epoch), given
    /// the stored row of the user named in the request (`None` when there is
    /// none): the credentials are checked as `check_credentials` does, and a
    /// session token is then issued as `issue_token` does, for the user's id,
    /// the requested name and the stored role.
    pub fn login(&self, row: Option<UserCredentials>, req: LoginRequest, now: (i64, u32)) -> (r: Result<
        LoginResponse,
        AuthError,
    >)
        ensures
            match credentials_view(row) {
                None => r matches Err(AuthError::InvalidCredentials),
                Some((id, hash, stored_role)) => match bcrypt_verify_outcome(req.password@, hash) {
                    Err(m) => r matches Err(AuthError::Internal(e)) && e@ == m,
                    Ok(false) => r matches Err(AuthError::InvalidCredentials),
                    Ok(true) => match role_named(stored_role) {
                        None => r matches Err(AuthError::InvalidRole),
                        Some(rl) => {
                            let exp = session_expiry(now.0 as int, self.spec_policy().token_ttl_hours as int);
                            if i64::MIN <= exp <= i64::MAX && rfc3339_text(exp, now.1 as int) is Some {
                                r matches Ok(resp) && resp.token@ == session_jwt(
                                    self.spec_policy().jwt_secret@,
                                    id,
                                    req.username@,
                                    role_name(rl),
                                    exp,
                                    now.0 as int,
                                ) && resp.token@.len() > 0 && rfc3339_text(exp, now.1 as int) == Some(
                                    resp.expires_at@,
                                ) && resp.role == rl && resp.username@ == req.username@
                            } else {
                                r matches Err(AuthError::Internal(_))
                            }
                        },
                    },
                },
            },
    {
        let (user_id, role) = match self.check_credentials(row, req.password.as_str()) {
            Ok(found) => found,
            Err(e) => {
                return Err(e);
            },
        };
        match self.issue_token(user_id.as_str(), req.username.as_str(), role, now) {
            Ok(token) => Ok(login_response(token, role, req.username)),
            Err(e) => Err(e),
        }
    }

    /// Checks a session token at `now` (seconds since the epoch): its signature
    /// must check under the policy's secret, it must carry the claims of a
    /// session with a known role, and it must not have expired more than the
    /// leeway ago. Every refusal is `InvalidToken`. A token that `issue_token`
    /// signed under the same secret is accepted, with its claims, until then.
    pub fn validate_token(&self, token: &str, now: i64) -> (r: Result<Claims, AuthError>)
        ensures
            match session_jwt_claims(self.spec_policy().jwt_secret@, token@) {
                None => r matches Err(AuthError::InvalidToken),
                Some((sub, username, role, exp, iat)) => if exp < now - expiry_leeway() || role_named(role)
                    is None {
                    r matches Err(AuthError::InvalidToken)
                } else {
                    r matches Ok(c) && c.sub@ == sub && c.username@ == username && role_named(role) == Some(
                        c.role,
                    ) && c.exp == exp && c.iat == iat
                },
            },
            forall|sub: Seq<char>, username: Seq<char>, rl: Role, exp: i64, iat: i64|
                0 <= exp && now - expiry_leeway() <= exp && token@ == #[trigger] session_jwt(
                    self.spec_policy().jwt_secret@,
                    sub,
                    username,
                    role_name(rl),
                    exp as int,
                    iat as int,
                ) ==> (r matches Ok(c) && c.sub@ == sub && c.username@ == username && c.role == rl && c.exp
                    == exp && c.iat == iat),
    {
        let decoded = decode_session_token(self.policy.jwt_secret.as_str(), token);
        let r = match decoded {
            None => Err(AuthError::InvalidToken),
            Some((sub, username, role, exp, iat)) => {
                if (exp as i128) < now as i128 - 60 {
                    Err(AuthError::InvalidToken)
                } else {
                    match Role::from_str(role.as_str()) {
                        None => Err(AuthError::InvalidToken),
                        Some(rl) => Ok(Claims { sub, username, role: rl, exp, iat }),
                    }
                }
            },
        };
        proof {
            assert forall|sub: Seq<char>, username: Seq<char>, rl: Role, exp: i64, iat: i64|
                0 <= exp && now - expiry_leeway() <= exp && token@ == #[trigger] session_jwt(
                    self.spec_policy().jwt_secret@,
                    sub,
                    username,
                    role_name(rl),
                    exp as int,
                    iat as int,
                ) implies (r matches Ok(c) && c.sub@ == sub && c.username@ == username && c.role == rl
                && c.exp == exp && c.iat == iat) by {
                lemma_role_round_trip(rl);
                let k = (sub, username, role_name(rl), exp, iat);
                assert(token@ == session_jwt(
                    self.policy.jwt_secret@,
                    k.0,
                    k.1,
                    k.2,
                    k.3 as int,
                    k.4 as int,
                ));
            }
        }
        r
    }

    /// Allows the holder of `claims` to act where `required` is asked for exactly
    /// when their role ranks at least as high.
    pub fn authorize(&self, claims: &Claims, required: Role) -> (r: Result<(), AuthError>)
        ensures
            r is Ok <==> role_rank(claims.role) >= role_rank(required),
            r is Err ==> r matches Err(AuthError::Forbidden),
    {
        if role_level(claims.role) >= role_level(required) {
            Ok(())
        } else {
            Err(AuthError::Forbidden)
        }
    }
}

/// The response to a successful login.
pub fn login_response(token: IssuedToken, role: Role, username: String) -> (r: LoginResponse)
    ensures
        r.token == token.token,
        r.expires_at == token.expires_at,
        r.role == role,
        r.username == username,
{
    LoginResponse { token: token.token, expires_at: token.expires_at, role, username }
}

/// Every role reads back from its wire name, and no two roles share one.
pub proof fn lemma_role_round_trip(r: Role)
    ensures
        role_named(role_name(r)) == Some(r),
{
    reveal_strlit("admin");
    reveal_strlit("operator");
    reveal_strlit("viewer");
    assert("admin"@ != "operator"@ && "admin"@ != "viewer"@ && "operator"@ != "viewer"@) by {
        assert("admin"@.len() != "operator"@.len());
        assert("admin"@.len() != "viewer"@.len());
        assert("operator"@.len() != "viewer"@.len());
    }
}

/// The role hierarchy: `Admin` outranks `Operator`, which outranks `Viewer`,
/// and a role ranked at least as high as another holds every right the other
/// holds (managing users belongs to admins; managing devices, policies and
/// enrollment and ingesting audit events to operators and above).
pub proof fn lemma_rights_follow_rank(a: Role, b: Role)
    requires
        role_rank(a) >= role_rank(b),
    ensures
        role_rank(Role::Admin) > role_rank(Role::Operator) > role_rank(Role::Viewer),
        b == Role::Admin ==> a == Role::Admin,
        (b == Role::Admin || b == Role::Operator) ==> (a == Role::Admin || a == Role::Operator),
{
}

} // verus!
