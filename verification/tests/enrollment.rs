use controller::enrollment::{check_enrollment_token, hash_token, hex_lower, raw_token_text};
use controller::models::{DbError, EnrollmentTokenRow};

fn row(expires_at: Option<&str>, revoked_at: Option<&str>) -> EnrollmentTokenRow {
    EnrollmentTokenRow {
        id: "tok-1".to_string(),
        token_hash: hash_token("wset_secret"),
        label: Some("lab".to_string()),
        created_at: "2024-01-01T00:00:00Z".to_string(),
        expires_at: expires_at.map(|s| s.to_string()),
        revoked_at: revoked_at.map(|s| s.to_string()),
    }
}

// 2024-06-01T00:00:00Z
const JUNE_2024: (i64, u32) = (1_717_200_000, 0);

#[test]
fn token_hash_is_stable() {
    assert_eq!(hash_token("abc"), hash_token("abc"));
    assert_ne!(hash_token("abc"), hash_token("def"));
}

#[test]
fn token_hash_is_sha256_hex() {
    assert_eq!(
        hash_token("abc"),
        "ba7816bf8f01cfea414140de5dae2223b00361a396177a9cb410ff61f20015ad"
    );
    assert_eq!(hash_token("").len(), 64);
}

#[test]
fn hex_is_two_lowercase_digits_per_byte() {
    assert_eq!(hex_lower(&vec![0x00, 0x0f, 0xa5, 0xff]), "000fa5ff");
}

#[test]
fn raw_token_has_prefix() {
    assert_eq!(raw_token_text("1234"), "wset_1234");
}

#[test]
fn unknown_token_is_invalid() {
    match check_enrollment_token(None, JUNE_2024) {
        Err(DbError::NotFound(m)) => assert_eq!(m, "invalid enrollment token"),
        _ => panic!("unknown token must be refused"),
    }
}

#[test]
fn revoked_token_is_refused() {
    match check_enrollment_token(Some(row(None, Some("2024-02-01T00:00:00Z"))), JUNE_2024) {
        Err(DbError::NotFound(m)) => assert_eq!(m, "enrollment token revoked"),
        _ => panic!("revoked token must be refused"),
    }
}

#[test]
fn expired_token_is_refused() {
    match check_enrollment_token(Some(row(Some("2024-05-31T23:59:59Z"), None)), JUNE_2024) {
        Err(DbError::NotFound(m)) => assert_eq!(m, "enrollment token expired"),
        _ => panic!("expired token must be refused"),
    }
}

#[test]
fn offset_timestamps_compare_as_instants() {
    // 2024-06-01T01:00:00+02:00 is 2024-05-31T23:00:00Z, already past.
    assert!(check_enrollment_token(Some(row(Some("2024-06-01T01:00:00+02:00"), None)), JUNE_2024).is_err());
    assert!(check_enrollment_token(Some(row(Some("2024-06-01T03:00:00+02:00"), None)), JUNE_2024).is_ok());
}

#[test]
fn valid_token_is_accepted() {
    match check_enrollment_token(Some(row(Some("2030-01-01T00:00:00Z"), None)), JUNE_2024) {
        Ok(t) => {
            assert_eq!(t.id, "tok-1");
            assert_eq!(t.label, Some("lab".to_string()));
            assert!(t.revoked_at.is_none());
        }
        Err(_) => panic!("valid token must be accepted"),
    }
}

#[test]
fn unreadable_expiry_never_expires() {
    assert!(check_enrollment_token(Some(row(Some("not a time"), None)), JUNE_2024).is_ok());
}
