use controller::api::{require_role, ApiError};
use controller::auth::{
    default_admin, login_response, role_level, session_claims, AuthError, AuthService, Claims,
    ControllerSecurityPolicy, IssuedToken, LoginRequest, Role, UserCredentials,
};

fn claims(role: Role) -> Claims {
    Claims {
        sub: "u1".to_string(),
        username: "alice".to_string(),
        role,
        exp: 0,
        iat: 0,
    }
}

#[test]
fn role_hierarchy() {
    assert!(Role::Admin.can_manage_users());
    assert!(!Role::Viewer.can_manage_policies());
    assert!(Role::Operator.can_manage_devices());
}

#[test]
fn role_names_round_trip() {
    for role in [Role::Admin, Role::Operator, Role::Viewer] {
        assert!(Role::from_str(role.as_str()) == Some(role));
    }
    assert_eq!(Role::Admin.as_str(), "admin");
    assert_eq!(Role::Operator.as_str(), "operator");
    assert_eq!(Role::Viewer.as_str(), "viewer");
    assert!(Role::from_str("root").is_none());
    assert!(Role::from_str("Admin").is_none());
}

#[test]
fn role_levels_are_ordered() {
    assert_eq!(role_level(Role::Admin), 3);
    assert_eq!(role_level(Role::Operator), 2);
    assert_eq!(role_level(Role::Viewer), 1);
}

#[test]
fn role_permissions() {
    assert!(!Role::Operator.can_manage_users());
    assert!(Role::Operator.can_manage_policies());
    assert!(Role::Operator.can_manage_enrollment());
    assert!(!Role::Viewer.can_manage_devices());
    assert!(!Role::Viewer.can_manage_enrollment());
    assert!(Role::Viewer.can_read());
    assert!(Role::Admin.can_ingest_audit());
}

#[test]
fn authorize_follows_rank() {
    let service = AuthService::new(ControllerSecurityPolicy::with_secret("s".to_string()));
    assert!(service.authorize(&claims(Role::Admin), Role::Operator).is_ok());
    assert!(service.authorize(&claims(Role::Operator), Role::Operator).is_ok());
    assert!(matches!(
        service.authorize(&claims(Role::Viewer), Role::Operator),
        Err(AuthError::Forbidden)
    ));
}

#[test]
fn require_role_forbids_lower_roles() {
    assert!(require_role(&claims(Role::Admin), Role::Admin).is_ok());
    let denied = require_role(&claims(Role::Viewer), Role::Admin);
    match denied {
        Err(e) => {
            assert_eq!(e.status_code(), 403);
            assert_eq!(e.message(), "forbidden");
        }
        Ok(()) => panic!("viewer must not act as admin"),
    }
}

#[test]
fn default_policy_settings() {
    let p = ControllerSecurityPolicy::with_secret("secret".to_string());
    assert_eq!(p.jwt_secret, "secret");
    assert_eq!(p.token_ttl_hours, 24);
    assert_eq!(p.bcrypt_cost, 12);
    assert!(!p.require_https);
    assert_eq!(p.max_login_attempts, 5);
}

#[test]
fn default_admin_logs_in_with_admin_password() {
    let created = default_admin(0, "id-1".to_string(), 4, "now".to_string());
    let user = match created {
        Ok(Some(u)) => u,
        _ => panic!("an empty user table gets an admin"),
    };
    assert_eq!(user.username, "admin");
    assert_eq!(user.role, "admin");
    let service = AuthService::new(ControllerSecurityPolicy::with_secret("s".to_string()));
    let row = UserCredentials {
        user_id: user.id.clone(),
        password_hash: user.password_hash.clone(),
        role: user.role.clone(),
    };
    match service.check_credentials(Some(row), "admin") {
        Ok((id, role)) => {
            assert_eq!(id, "id-1");
            assert!(role == Role::Admin);
        }
        Err(_) => panic!("admin/admin must verify"),
    }
    let row = UserCredentials {
        user_id: user.id.clone(),
        password_hash: user.password_hash,
        role: user.role,
    };
    assert!(matches!(
        service.check_credentials(Some(row), "wrong"),
        Err(AuthError::InvalidCredentials)
    ));
}

#[test]
fn default_admin_only_when_no_users() {
    assert!(matches!(
        default_admin(3, "id".to_string(), 4, "now".to_string()),
        Ok(None)
    ));
}

#[test]
fn default_admin_reports_bad_cost() {
    assert!(default_admin(0, "id".to_string(), 99, "now".to_string()).is_err());
}

#[test]
fn unknown_user_is_invalid_credentials() {
    let service = AuthService::new(ControllerSecurityPolicy::with_secret("s".to_string()));
    assert!(matches!(
        service.check_credentials(None, "admin"),
        Err(AuthError::InvalidCredentials)
    ));
}

#[test]
fn malformed_hash_is_internal() {
    let service = AuthService::new(ControllerSecurityPolicy::with_secret("s".to_string()));
    let row = UserCredentials {
        user_id: "u".to_string(),
        password_hash: "not-a-hash".to_string(),
        role: "admin".to_string(),
    };
    assert!(matches!(
        service.check_credentials(Some(row), "admin"),
        Err(AuthError::Internal(_))
    ));
}

#[test]
fn unknown_stored_role_is_invalid_role() {
    let created = default_admin(0, "id".to_string(), 4, "now".to_string());
    let user = match created {
        Ok(Some(u)) => u,
        _ => panic!("admin expected"),
    };
    let service = AuthService::new(ControllerSecurityPolicy::with_secret("s".to_string()));
    let row = UserCredentials {
        user_id: user.id,
        password_hash: user.password_hash,
        role: "superuser".to_string(),
    };
    assert!(matches!(
        service.check_credentials(Some(row), "admin"),
        Err(AuthError::InvalidRole)
    ));
}

#[test]
fn session_claims_expire_after_ttl() {
    let c = session_claims("u1", "alice", Role::Viewer, 1_000, 24);
    assert_eq!(c.iat, 1_000);
    assert_eq!(c.exp, 1_000 + 24 * 3600);
    assert_eq!(c.sub, "u1");
    assert_eq!(c.username, "alice");
}

#[test]
fn login_response_carries_token() {
    let r = login_response(
        IssuedToken {
            token: "t".to_string(),
            expires_at: "e".to_string(),
        },
        Role::Operator,
        "bob".to_string(),
    );
    assert_eq!(r.token, "t");
    assert_eq!(r.expires_at, "e");
    assert_eq!(r.username, "bob");
    assert!(r.role == Role::Operator);
}

#[test]
fn api_error_mapping() {
    let e = ApiError::from_auth(AuthError::InvalidToken);
    assert_eq!(e.status_code(), 401);
    let e = ApiError::from_auth(AuthError::InvalidRole);
    assert_eq!(e.status_code(), 500);
    assert_eq!(e.message(), "invalid role");
}

#[test]
fn default_admin_hash_carries_the_cost() {
    match default_admin(0, "id".to_string(), 5, "now".to_string()) {
        Ok(Some(u)) => {
            assert!(u.password_hash.starts_with("$2b$05$"));
            assert_eq!(u.password_hash.len(), 60);
        }
        _ => panic!("admin expected"),
    }
    assert!(matches!(default_admin(0, "id".to_string(), 3, "now".to_string()), Err(_)));
}

#[test]
fn configured_secret_or_default() {
    let p = ControllerSecurityPolicy::from_configured_secret(Some("s3cret".to_string()));
    assert_eq!(p.jwt_secret, "s3cret");
    assert_eq!(p.token_ttl_hours, 24);
    assert_eq!(p.bcrypt_cost, 12);
    let d = ControllerSecurityPolicy::from_configured_secret(None);
    assert_eq!(d.jwt_secret, "dev-insecure-secret-change-me");
    assert_eq!(d.max_login_attempts, 5);
}

#[test]
fn issued_token_validates_until_expiry() {
    let service = AuthService::new(ControllerSecurityPolicy::with_secret("k1".to_string()));
    let now = 1_700_000_000i64;
    let issued = match service.issue_token("u1", "alice", Role::Operator, (now, 0)) {
        Ok(t) => t,
        Err(_) => panic!("token expected"),
    };
    assert_eq!(issued.expires_at, "2023-11-15T22:13:20+00:00");
    match service.validate_token(&issued.token, now + 10) {
        Ok(c) => {
            assert_eq!(c.sub, "u1");
            assert_eq!(c.username, "alice");
            assert!(c.role == Role::Operator);
            assert_eq!(c.iat, now);
            assert_eq!(c.exp, now + 24 * 3600);
        }
        Err(_) => panic!("valid token refused"),
    }
    assert!(service.validate_token(&issued.token, now + 24 * 3600 + 30).is_ok());
    assert!(matches!(service.validate_token(&issued.token, now + 24 * 3600 + 61), Err(AuthError::InvalidToken)));
    let other = AuthService::new(ControllerSecurityPolicy::with_secret("k2".to_string()));
    assert!(matches!(other.validate_token(&issued.token, now), Err(AuthError::InvalidToken)));
    assert!(matches!(service.validate_token("not.a.token", now), Err(AuthError::InvalidToken)));
}

#[test]
fn auth_login_issues_jwt() {
    let mut policy = ControllerSecurityPolicy::with_secret("unit-test".to_string());
    policy.bcrypt_cost = 4;
    let svc = AuthService::new(policy);
    let user = match default_admin(0, "admin-id".to_string(), svc.policy().bcrypt_cost, "now".to_string()) {
        Ok(Some(u)) => u,
        _ => panic!("an empty user table gets an admin"),
    };
    let row = UserCredentials { user_id: user.id, password_hash: user.password_hash, role: user.role };
    let req = LoginRequest { username: "admin".into(), password: "admin".into() };
    let resp = match svc.login(Some(row), req, (1_700_000_000, 0)) {
        Ok(r) => r,
        Err(_) => panic!("login"),
    };
    assert!(!resp.token.is_empty());
    assert!(resp.role == Role::Admin);
    assert_eq!(resp.username, "admin");
    assert_eq!(resp.expires_at, "2023-11-15T22:13:20+00:00");
    match svc.validate_token(&resp.token, 1_700_000_000) {
        Ok(c) => {
            assert_eq!(c.sub, "admin-id");
            assert_eq!(c.username, "admin");
            assert!(c.role == Role::Admin);
        }
        Err(_) => panic!("the issued token must validate"),
    }
}

#[test]
fn login_refusals() {
    let svc = AuthService::new(ControllerSecurityPolicy::with_secret("s".to_string()));
    let req = || LoginRequest { username: "admin".into(), password: "admin".into() };
    assert!(matches!(svc.login(None, req(), (0, 0)), Err(AuthError::InvalidCredentials)));
    let user = match default_admin(0, "id".to_string(), 4, "now".to_string()) {
        Ok(Some(u)) => u,
        _ => panic!("admin expected"),
    };
    let wrong = LoginRequest { username: "admin".into(), password: "nope".into() };
    let row = || UserCredentials {
        user_id: user.id.clone(),
        password_hash: user.password_hash.clone(),
        role: user.role.clone(),
    };
    assert!(matches!(svc.login(Some(row()), wrong, (0, 0)), Err(AuthError::InvalidCredentials)));
    let bad_role = UserCredentials { role: "root".to_string(), ..row() };
    assert!(matches!(svc.login(Some(bad_role), req(), (0, 0)), Err(AuthError::InvalidRole)));
    assert!(matches!(svc.login(Some(row()), req(), (i64::MAX, 0)), Err(AuthError::Internal(_))));
}

#[test]
fn expiry_out_of_range_is_internal() {
    let service = AuthService::new(ControllerSecurityPolicy::with_secret("k".to_string()));
    assert!(matches!(service.issue_token("u", "n", Role::Viewer, (i64::MAX - 10, 0)), Err(AuthError::Internal(_))));
    assert!(matches!(
        service.issue_token("u", "n", Role::Viewer, (i64::MAX / 2, 0)),
        Err(AuthError::Internal(_))
    ));
    match service.issue_token("u", "n", Role::Viewer, (0, 0)) {
        Ok(t) => {
            assert_eq!(t.expires_at, "1970-01-02T00:00:00+00:00");
            assert_eq!(t.token.matches('.').count(), 2);
        }
        Err(_) => panic!("token expected"),
    }
}
