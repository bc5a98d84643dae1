use vstd::prelude::*;

use sha2::Digest;

use crate::models::{DbError, EnrollmentTokenRow};

verus! {

/// An enrollment token as it is listed (its secret is never stored).
pub struct EnrollmentToken {
    pub id: String,
    pub label: Option<String>,
    pub created_at: String,
    pub expires_at: Option<String>,
    pub revoked_at: Option<String>,
}

pub struct CreateEnrollmentTokenRequest {
    pub label: Option<String>,
    pub expires_in_hours: Option<i64>,
}

pub struct RotateEnrollmentTokenResponse {
    pub id: String,
    pub token: String,
    pub label: Option<String>,
    pub created_at: String,
    pub expires_at: Option<String>,
}

/// The SHA-256 digest of a byte string.
pub uninterp spec fn sha256_of(data: Seq<u8>) -> Seq<u8>;

/// Calls `sha2::Sha256::digest`, whose output is the 32-byte SHA-256 digest of
/// its input; the digest itself is named `sha256_of`.
#[verifier::external_body]
fn sha256_digest(data: &[u8]) -> (r: Vec<u8>)
    ensures
        r@ == sha256_of(data@),
        r@.len() == 32,
{
    sha2::Sha256::digest(data).to_vec()
}

/// The lowercase hexadecimal digit of a value below sixteen.
pub open spec fn hex_char(d: int) -> char {
    if d < 10 {
        crate::text::digit_char(d)
    } else if d == 10 {
        'a'
    } else if d == 11 {
        'b'
    } else if d == 12 {
        'c'
    } else if d == 13 {
        'd'
    } else if d == 14 {
        'e'
    } else {
        'f'
    }
}

/// Two lowercase hexadecimal digits per byte, high digit first.
pub open spec fn hex_of(bytes: Seq<u8>) -> Seq<char>
    decreases bytes.len(),
{
    if bytes.len() == 0 {
        Seq::empty()
    } else {
        hex_of(bytes.drop_last()) + seq![
            hex_char((bytes.last() / 16) as int),
            hex_char((bytes.last() % 16) as int),
        ]
    }
}

pub(crate) fn hex_digit(d: u8) -> (r: &'static str)
    requires
        d < 16,
    ensures
        r@ == seq![hex_char(d as int)],
{
    proof {
        reveal_strlit("0");
        reveal_strlit("1");
        reveal_strlit("2");
        reveal_strlit("3");
        reveal_strlit("4");
        reveal_strlit("5");
        reveal_strlit("6");
        reveal_strlit("7");
        reveal_strlit("8");
        reveal_strlit("9");
        reveal_strlit("a");
        reveal_strlit("b");
        reveal_strlit("c");
        reveal_strlit("d");
        reveal_strlit("e");
        reveal_strlit("f");
    }
    if d == 0 {
        "0"
    } else if d == 1 {
        "1"
    } else if d == 2 {
        "2"
    } else if d == 3 {
        "3"
    } else if d == 4 {
        "4"
    } else if d == 5 {
        "5"
    } else if d == 6 {
        "6"
    } else if d == 7 {
        "7"
    } else if d == 8 {
        "8"
    } else if d == 9 {
        "9"
    } else if d == 10 {
        "a"
    } else if d == 11 {
        "b"
    } else if d == 12 {
        "c"
    } else if d == 13 {
        "d"
    } else if d == 14 {
        "e"
    } else {
        "f"
    }
}

/// Lowercase hexadecimal text of a byte string.
pub fn hex_lower(bytes: &Vec<u8>) -> (r: String)
    ensures
        r@ == hex_of(bytes@),
{
    let mut out = String::new();
    let mut i: usize = 0;
    while i < bytes.len()
        invariant
            i <= bytes@.len(),
            out@ == hex_of(bytes@.take(i as int)),
        decreases bytes@.len() - i,
    {
        proof {
            assert(bytes@.take(i + 1).drop_last() =~= bytes@.take(i as int));
            assert(bytes@.take(i + 1).last() == bytes@[i as int]);
        }
        let b = bytes[i];
        out.append(hex_digit(b / 16));
        out.append(hex_digit(b % 16));
        i = i + 1;
    }
    assert(bytes@.take(i as int) =~= bytes@);
    out
}

/// The stored fingerprint of an enrollment or federation secret: the lowercase
/// hexadecimal SHA-256 digest of its UTF-8 bytes.
pub fn hash_token(raw: &str) -> (r: String)
    ensures
        r@ == hex_of(sha256_of(vstd::utf8::encode_utf8(raw@))),
        r@.len() == 64,
{
    let digest = sha256_digest(raw.as_bytes());
    let r = hex_lower(&digest);
    proof {
        lemma_hex_len(digest@);
    }
    r
}

proof fn lemma_hex_len(bytes: Seq<u8>)
    ensures
        hex_of(bytes).len() == 2 * bytes.len(),
    decreases bytes.len(),
{
    if bytes.len() > 0 {
        lemma_hex_len(bytes.drop_last());
    }
}

/// The secret handed out for a new enrollment token: `wset_` followed by a fresh UUID.
pub fn raw_token_text(uuid_text: &str) -> (r: String)
    ensures
        r@ == "wset_"@ + uuid_text@,
{
    String::from_str("wset_").concat(uuid_text)
}

/// The listing form of a stored token row.
pub fn token_from_row(row: EnrollmentTokenRow) -> (r: EnrollmentToken)
    ensures
        r.id == row.id,
        r.label == row.label,
        r.created_at == row.created_at,
        r.expires_at == row.expires_at,
        r.revoked_at == row.revoked_at,
{
    EnrollmentToken {
        id: row.id,
        label: row.label,
        created_at: row.created_at,
        expires_at: row.expires_at,
        revoked_at: row.revoked_at,
    }
}

/// Strict order of instants.
pub open spec fn instant_before(a: (i64, u32), b: (i64, u32)) -> bool {
    a.0 < b.0 || (a.0 == b.0 && a.1 < b.1)
}

/// Whether a token with this expiry text has expired at `now`; an expiry that
/// is not a readable timestamp never expires.
pub open spec fn expired_at(expires_at: Option<String>, now: (i64, u32)) -> bool {
    match expires_at {
        Some(e) => match crate::stored::rfc3339_instant(e@) {
            Ok(t) => instant_before(t, now),
            Err(_) => false,
        },
        None => false,
    }
}

/// Decides an enrollment attempt from the stored row found for the secret's
/// fingerprint (`None` when there is none) and the current instant: an unknown
/// secret, a revoked token and an expired token are refused with their reasons.
pub fn check_enrollment_token(row: Option<EnrollmentTokenRow>, now: (i64, u32)) -> (r: Result<
    EnrollmentToken,
    DbError,
>)
    ensures
        match row {
            None => r matches Err(DbError::NotFound(m)) && m@ == "invalid enrollment token"@,
            Some(t) => if t.revoked_at is Some {
                r matches Err(DbError::NotFound(m)) && m@ == "enrollment token revoked"@
            } else if expired_at(t.expires_at, now) {
                r matches Err(DbError::NotFound(m)) && m@ == "enrollment token expired"@
            } else {
                r matches Ok(tok) && tok.id == t.id && tok.label == t.label && tok.created_at
                    == t.created_at && tok.expires_at == t.expires_at && tok.revoked_at is None
            },
        },
{
    match row {
        None => Err(DbError::NotFound(String::from_str("invalid enrollment token"))),
        Some(t) => {
            if t.revoked_at.is_some() {
                return Err(DbError::NotFound(String::from_str("enrollment token revoked")));
            }
            let expired = match &t.expires_at {
                Some(e) => match crate::stored::parse_rfc3339_instant(e.as_str()) {
                    Ok(at) => at.0 < now.0 || (at.0 == now.0 && at.1 < now.1),
                    Err(_) => false,
                },
                None => false,
            };
            if expired {
                return Err(DbError::NotFound(String::from_str("enrollment token expired")));
            }
            Ok(token_from_row(t))
        },
    }
}

} // verus!
