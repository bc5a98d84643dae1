use vstd::prelude::*;

use crate::auth::{role_level, AuthError, Claims, Role};
use crate::models::DbError;

verus! {

/// Errors that the HTTP API answers with.
pub enum ApiError {
    NotFound(String),
    Unauthorized,
    Forbidden,
    BadRequest(String),
    Internal(String),
}

/// The authenticated caller of a protected route.
pub struct AuthUser {
    pub claims: Claims,
}

impl ApiError {
    /// A storage failure as the API reports it: a missing row is `NotFound`
    /// with the same message, any other storage error is `Internal`.
    pub fn from_db(e: DbError) -> (r: ApiError)
        ensures
            match e {
                DbError::NotFound(m) => r matches ApiError::NotFound(rm) && rm@ == m@,
                DbError::Sqlx(m) => r matches ApiError::Internal(rm) && rm@ == m@,
            },
    {
        match e {
            DbError::NotFound(m) => ApiError::NotFound(m),
            DbError::Sqlx(m) => ApiError::Internal(m),
        }
    }

    /// An authentication failure as the API reports it: bad credentials and bad
    /// tokens are `Unauthorized`, a role below the one required is `Forbidden`,
    /// anything else is `Internal`.
    pub fn from_auth(e: AuthError) -> (r: ApiError)
        ensures
            match e {
                AuthError::InvalidCredentials => r is Unauthorized,
                AuthError::InvalidToken => r is Unauthorized,
                AuthError::Forbidden => r is Forbidden,
                AuthError::InvalidRole => r matches ApiError::Internal(m) && m@ == "invalid role"@,
                AuthError::Internal(m) => r matches ApiError::Internal(rm) && rm@ == m@,
            },
    {
        match e {
            AuthError::InvalidCredentials => ApiError::Unauthorized,
            AuthError::InvalidToken => ApiError::Unauthorized,
            AuthError::Forbidden => ApiError::Forbidden,
            AuthError::InvalidRole => ApiError::Internal(String::from_str("invalid role")),
            AuthError::Internal(m) => ApiError::Internal(m),
        }
    }

    /// The HTTP status code of the error.
    pub fn status_code(&self) -> (r: u16)
        ensures
            r == match self {
                ApiError::NotFound(_) => 404u16,
                ApiError::Unauthorized => 401u16,
                ApiError::Forbidden => 403u16,
                ApiError::BadRequest(_) => 400u16,
                ApiError::Internal(_) => 500u16,
            },
    {
        match self {
            ApiError::NotFound(_) => 404,
            ApiError::Unauthorized => 401,
            ApiError::Forbidden => 403,
            ApiError::BadRequest(_) => 400,
            ApiError::Internal(_) => 500,
        }
    }

    /// The message placed under `"error"` in the response body.
    pub fn message(self) -> (r: String)
        ensures
            match self {
                ApiError::NotFound(m) => r@ == m@,
                ApiError::Unauthorized => r@ == "unauthorized"@,
                ApiError::Forbidden => r@ == "forbidden"@,
                ApiError::BadRequest(m) => r@ == m@,
                ApiError::Internal(m) => r@ == m@,
            },
    {
        match self {
            ApiError::NotFound(m) => m,
            ApiError::Unauthorized => String::from_str("unauthorized"),
            ApiError::Forbidden => String::from_str("forbidden"),
            ApiError::BadRequest(m) => m,
            ApiError::Internal(m) => m,
        }
    }
}

/// Lets a caller through a route that asks for role `min` exactly when the
/// caller's role ranks at least as high; otherwise `Forbidden`.
pub fn require_role(claims: &Claims, min: Role) -> (r: Result<(), ApiError>)
    ensures
        r is Ok <==> crate::auth::role_rank(claims.role) >= crate::auth::role_rank(min),
        r is Err ==> r matches Err(ApiError::Forbidden),
{
    if role_level(claims.role) >= role_level(min) {
        Ok(())
    } else {
        Err(ApiError::Forbidden)
    }
}

/// The token of an `Authorization` header of the form `Bearer <token>`.
pub open spec fn bearer_of(h: Seq<char>) -> Option<Seq<char>> {
    if h.len() >= 7 && h.subrange(0, 7) == "Bearer "@ {
        Some(h.subrange(7, h.len() as int))
    } else {
        None
    }
}

/// Extracts the session token from an `Authorization` header value; a missing
/// header, or one without the `Bearer ` prefix, is `Unauthorized`.
pub fn bearer_token<'a>(header: Option<&'a str>) -> (r: Result<&'a str, ApiError>)
    ensures
        match header {
            None => r matches Err(ApiError::Unauthorized),
            Some(h) => match bearer_of(h@) {
                Some(t) => r matches Ok(tok) && tok@ == t,
                None => r matches Err(ApiError::Unauthorized),
            },
        },
{
    match header {
        None => Err(ApiError::Unauthorized),
        Some(h) => {
            let prefix = "Bearer ";
            proof {
                reveal_strlit("Bearer ");
            }
            let n = h.unicode_len();
            if n < 7 {
                return Err(ApiError::Unauthorized);
            }
            let mut i: usize = 0;
            while i < 7
                invariant
                    header == Some(h),
                    n == h@.len(),
                    n >= 7,
                    i <= 7,
                    prefix@ == "Bearer "@,
                    prefix@.len() == 7,
                    forall|k: int| 0 <= k < i ==> h@[k] == prefix@[k],
                decreases 7 - i,
            {
                if h.get_char(i) != prefix.get_char(i) {
                    assert(h@.subrange(0, 7)[i as int] != "Bearer "@[i as int]);
                    return Err(ApiError::Unauthorized);
                }
                i = i + 1;
            }
            assert(h@.subrange(0, 7) =~= "Bearer "@);
            Ok(h.substring_char(7, n))
        },
    }
}

/// Decides a federation request from the registration found for its
/// `X-Federation-Token` header: no header or no matching registration is
/// `Unauthorized`; other storage errors pass through.
pub fn federation_access<T>(header_present: bool, lookup: Result<T, DbError>) -> (r: Result<(), ApiError>)
    ensures
        !header_present ==> r matches Err(ApiError::Unauthorized),
        header_present ==> match lookup {
            Ok(_) => r is Ok,
            Err(DbError::NotFound(_)) => r matches Err(ApiError::Unauthorized),
            Err(DbError::Sqlx(m)) => r matches Err(ApiError::Internal(rm)) && rm@ == m@,
        },
{
    if !header_present {
        return Err(ApiError::Unauthorized);
    }
    match lookup {
        Ok(_) => Ok(()),
        Err(DbError::NotFound(_)) => Err(ApiError::Unauthorized),
        Err(e) => Err(ApiError::from_db(e)),
    }
}

} // verus!
