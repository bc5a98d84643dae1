use vstd::prelude::*;

verus! {

/// The `k`-th of the 32 hexadecimal digits of a 128-bit value, most
/// significant first.
pub open spec fn nibble(v: u128, k: int) -> int {
    (v as int / vstd::arithmetic::power::pow(16, (31 - k) as nat)) % 16
}

/// The hyphenated lowercase form of a UUID with value `v`: its 32 hexadecimal
/// digits in groups of 8, 4, 4, 4 and 12, joined by `-`.
pub open spec fn uuid_text(v: u128) -> Seq<char> {
    Seq::new(
        36,
        |i: int|
            if i == 8 || i == 13 || i == 18 || i == 23 {
                '-'
            } else {
                let k = if i < 8 {
                    i
                } else if i < 13 {
                    i - 1
                } else if i < 18 {
                    i - 2
                } else if i < 23 {
                    i - 3
                } else {
                    i - 4
                };
                crate::enrollment::hex_char(nibble(v, k))
            },
    )
}

/// The value that `uuid::Uuid::parse_str` reads from a text, or the text of
/// the error it reports.
pub uninterp spec fn uuid_parse(text: Seq<char>) -> Result<u128, Seq<char>>;

/// Formats the UUID with value `id` with `uuid::Uuid::to_string`, which writes
/// the hyphenated lowercase form.
#[verifier::external_body]
pub(crate) fn uuid_display(id: u128) -> (r: String)
    ensures
        r@ == uuid_text(id),
{
    uuid::Uuid::from_u128(id).to_string()
}

/// Parses a UUID with `uuid::Uuid::parse_str`; the outcome is named by
/// `uuid_parse`, and the hyphenated form of a value parses back to that value.
#[verifier::external_body]
pub(crate) fn parse_uuid(text: &str) -> (r: Result<u128, String>)
    ensures
        match r {
            Ok(v) => uuid_parse(text@) == Ok::<u128, Seq<char>>(v),
            Err(m) => uuid_parse(text@) == Err::<u128, Seq<char>>(m@),
        },
        forall|v: u128| text@ == uuid_text(v) ==> r.is_ok() && r.unwrap() == v,
{
    match uuid::Uuid::parse_str(text) {
        Ok(u) => Ok(u.as_u128()),
        Err(e) => Err(e.to_string()),
    }
}

/// The instant (seconds and nanoseconds since the Unix epoch, UTC) that an
/// RFC 3339 timestamp denotes, or the text of the error chrono reports.
pub uninterp spec fn rfc3339_instant(text: Seq<char>) -> Result<(i64, u32), Seq<char>>;

/// Calls `chrono::DateTime::parse_from_rfc3339`, a deterministic parser, and
/// reads the instant back as seconds and nanoseconds since the epoch; the
/// outcome is named by `rfc3339_instant`.
#[verifier::external_body]
pub(crate) fn parse_rfc3339_instant(text: &str) -> (r: Result<(i64, u32), String>)
    ensures
        match r {
            Ok(t) => rfc3339_instant(text@) == Ok::<(i64, u32), Seq<char>>(t),
            Err(m) => rfc3339_instant(text@) == Err::<(i64, u32), Seq<char>>(m@),
        },
{
    match chrono::DateTime::parse_from_rfc3339(text) {
        Ok(dt) => Ok((dt.timestamp(), dt.timestamp_subsec_nanos())),
        Err(e) => Err(e.to_string()),
    }
}

/// The text of `sqlx::Error::Decode` built from an error with text `cause`,
/// as its `Display` writes it.
pub open spec fn decode_failure_text(cause: Seq<char>) -> Seq<char> {
    "error occurred while decoding: "@ + cause
}

/// Renders a decoding failure with `sqlx::Error::Decode`'s `Display`, which
/// writes `error occurred while decoding: ` and then the cause.
#[verifier::external_body]
pub(crate) fn decode_failure(cause: &str) -> (r: String)
    ensures
        r@ == decode_failure_text(cause@),
{
    sqlx::Error::Decode(cause.to_string().into()).to_string()
}

/// The result of reading a stored timestamp: its instant, or a storage error
/// that carries the parser's complaint.
pub open spec fn stored_instant(text: Seq<char>) -> Result<(i64, u32), Seq<char>> {
    match rfc3339_instant(text) {
        Ok(t) => Ok(t),
        Err(m) => Err(decode_failure_text(m)),
    }
}

/// Reads a stored RFC 3339 timestamp; an unreadable one is a decoding error.
pub fn read_instant(text: &str) -> (r: Result<(i64, u32), crate::models::DbError>)
    ensures
        match stored_instant(text@) {
            Ok(t) => r == Ok::<(i64, u32), crate::models::DbError>(t),
            Err(m) => r matches Err(crate::models::DbError::Sqlx(e)) && e@ == m,
        },
{
    match parse_rfc3339_instant(text) {
        Ok(t) => Ok(t),
        Err(m) => Err(crate::models::DbError::Sqlx(decode_failure(m.as_str()))),
    }
}

/// The result of reading a stored UUID: its value, or a storage error that
/// carries the parser's complaint.
pub open spec fn stored_uuid(text: Seq<char>) -> Result<u128, Seq<char>> {
    match uuid_parse(text) {
        Ok(v) => Ok(v),
        Err(m) => Err(decode_failure_text(m)),
    }
}

/// Reads a stored UUID; an unreadable one is a decoding error.
pub fn read_uuid(text: &str) -> (r: Result<u128, crate::models::DbError>)
    ensures
        match stored_uuid(text@) {
            Ok(v) => r == Ok::<u128, crate::models::DbError>(v),
            Err(m) => r matches Err(crate::models::DbError::Sqlx(e)) && e@ == m,
        },
        forall|v: u128| text@ == uuid_text(v) ==> r == Ok::<u128, crate::models::DbError>(v),
{
    match parse_uuid(text) {
        Ok(v) => Ok(v),
        Err(m) => Err(crate::models::DbError::Sqlx(decode_failure(m.as_str()))),
    }
}

} // verus!
