//! The library's error type.

use vstd::prelude::*;
use vstd::string::*;
use crate::text::{
    contains_seq, decimal, is_visible_ascii, parse_u64, parse_u64_spec, push_decimal,
    str_contains,
};

verus! {

/// The one error type of every public operation of the client.
#[derive(Clone, Debug, PartialEq, Eq)]
pub enum SpotifyError {
    /// No login yet, or the refresh token is lost; a new login is needed.
    NeedsLogin,
    /// Spotify found no active device (NO_ACTIVE_DEVICE).
    NoActiveDevice,
    /// Too many requests (429); wait `retry_after_secs` seconds.
    RateLimited { retry_after_secs: u64 },
    /// A needed environment variable (CLIENT_ID / CLIENT_SECRET) is missing.
    MissingEnv(String),
    /// The HTTP request failed (connection, timeout, DNS, ...).
    Http(String),
    /// JSON could not be read or written.
    Json(String),
    /// The token file could not be read or written.
    Io(String),
    /// Any other error.
    Other(String),
}


/// The text shown for an error, as its `Display` renders it.
pub open spec fn error_message(e: SpotifyError) -> Seq<char> {
    match e {
        SpotifyError::NeedsLogin => "Giriş yapılmamış, önce login() çağrılmalı."@,
        SpotifyError::NoActiveDevice => "Aktif bir Spotify cihazı bulunamadı. Bir cihazda Spotify'ı açıp bir şarkı çalman/duraklatman gerekiyor."@,
        SpotifyError::RateLimited { retry_after_secs } => "Spotify'a çok fazla istek atıldı, "@
            + decimal(retry_after_secs as nat) + " saniye sonra tekrar dene."@,
        SpotifyError::MissingEnv(name) => "Ortam değişkeni eksik: "@ + name@,
        SpotifyError::Http(e) => "HTTP hatası: "@ + e@,
        SpotifyError::Json(e) => "JSON hatası: "@ + e@,
        SpotifyError::Io(e) => "Dosya hatası: "@ + e@,
        SpotifyError::Other(msg) => msg@,
    }
}

impl SpotifyError {
    /// The human-readable text of the error, for showing to a user.
    pub fn message(&self) -> (r: String)
        ensures
            r@ == error_message(*self),
    {
        match self {
            SpotifyError::NeedsLogin => String::from_str("Giriş yapılmamış, önce login() çağrılmalı."),
            SpotifyError::NoActiveDevice => String::from_str(
                "Aktif bir Spotify cihazı bulunamadı. Bir cihazda Spotify'ı açıp bir şarkı çalman/duraklatman gerekiyor.",
            ),
            SpotifyError::RateLimited { retry_after_secs } => {
                let mut s = String::from_str("Spotify'a çok fazla istek atıldı, ");
                push_decimal(&mut s, *retry_after_secs);
                s.append(" saniye sonra tekrar dene.");
                s
            },
            SpotifyError::MissingEnv(name) => {
                let mut s = String::from_str("Ortam değişkeni eksik: ");
                s.append(name.as_str());
                s
            },
            SpotifyError::Http(e) => {
                let mut s = String::from_str("HTTP hatası: ");
                s.append(e.as_str());
                s
            },
            SpotifyError::Json(e) => {
                let mut s = String::from_str("JSON hatası: ");
                s.append(e.as_str());
                s
            },
            SpotifyError::Io(e) => {
                let mut s = String::from_str("Dosya hatası: ");
                s.append(e.as_str());
                s
            },
            SpotifyError::Other(msg) => msg.clone(),
        }
    }
}

/// The text that `StatusCode::from_u16(code)` displays: the code and its
/// canonical reason phrase.
pub uninterp spec fn status_code_text(code: u16) -> Seq<char>;

/// Calls `reqwest::StatusCode::from_u16` and renders the status with
/// `Display`. Claims that the result is the named text of the code, which by
/// http's `Display` impl starts with the code's three digits and a space; the
/// reason phrase after it is not stated.
#[verifier::external_body]
fn status_text(code: u16) -> (r: String)
    requires
        100 <= code <= 999,
    ensures
        r@ == status_code_text(code),
        decimal(code as nat).push(' ').is_prefix_of(r@),
{
    match reqwest::StatusCode::from_u16(code) {
        Ok(status) => format!("{}", status),
        Err(_) => String::new(),
    }
}

/// The text in the body of an error response that marks a missing device.
pub const NO_ACTIVE_DEVICE_MARK: &'static str = "NO_ACTIVE_DEVICE";

/// The wait that a 429 response asks for: the `Retry-After` header read as a
/// whole number of seconds, or one second when the header is missing, is not
/// visible ASCII text, or is not such a number.
pub open spec fn retry_after_spec(header: Option<Seq<u8>>) -> u64 {
    match header {
        None => 1,
        Some(h) => if forall|i: int| 0 <= i < h.len() ==> is_visible_ascii(#[trigger] h[i]) {
            match parse_u64_spec(h) {
                Some(v) => v,
                None => 1,
            }
        } else {
            1
        },
    }
}

/// The bytes that an optional slice holds.
pub open spec fn bytes_view(b: Option<&[u8]>) -> Option<Seq<u8>> {
    match b {
        Some(h) => Some(h@),
        None => None,
    }
}

/// Reads the `Retry-After` header bytes of a 429 response.
pub fn retry_after_secs(header: Option<&[u8]>) -> (r: u64)
    ensures
        r == retry_after_spec(bytes_view(header)),
{
    match header {
        None => 1,
        Some(h) => {
            let n = h.len();
            for i in 0..n
                invariant
                    n == h@.len(),
                    bytes_view(header) == Some(h@),
                    forall|j: int| 0 <= j < i ==> is_visible_ascii(#[trigger] h@[j]),
            {
                let b = h[i];
                if !((32 <= b && b < 127) || b == 9) {
                    assert(!is_visible_ascii(h@[i as int]));
                    assert(!(forall|j: int| 0 <= j < h@.len() ==> is_visible_ascii(#[trigger] h@[j])));
                    return 1;
                }
            }
            match parse_u64(h) {
                Some(v) => v,
                None => 1,
            }
        },
    }
}

/// The error that a failed HTTP response stands for. A 429 asks to wait
/// (`Retry-After`, one second by default); a 404 whose body names
/// `NO_ACTIVE_DEVICE` means no device is active; anything else is reported
/// with its status line and body.
pub fn error_from_response(status: u16, retry_after: Option<&[u8]>, body: &str) -> (r:
    SpotifyError)
    requires
        100 <= status <= 999,
    ensures
        status == 429 ==> r == (SpotifyError::RateLimited {
            retry_after_secs: retry_after_spec(bytes_view(retry_after)),
        }),
        status != 429 && status == 404 && contains_seq(body@, NO_ACTIVE_DEVICE_MARK@) ==> r
            == SpotifyError::NoActiveDevice,
        status != 429 && !(status == 404 && contains_seq(body@, NO_ACTIVE_DEVICE_MARK@)) ==> (r matches SpotifyError::Other(m) && m@
            == "Beklenmeyen HTTP durumu "@ + status_code_text(status) + ": "@ + body@),
{
    if status == 429 {
        return SpotifyError::RateLimited { retry_after_secs: retry_after_secs(retry_after) };
    }
    if status == 404 && str_contains(body, NO_ACTIVE_DEVICE_MARK) {
        return SpotifyError::NoActiveDevice;
    }
    let mut m = String::from_str("Beklenmeyen HTTP durumu ");
    let st = status_text(status);
    m.append(st.as_str());
    m.append(": ");
    m.append(body);
    SpotifyError::Other(m)
}

} // verus!
