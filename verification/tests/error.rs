use spotify_control::error::{error_from_response, retry_after_secs};
use spotify_control::SpotifyError;

#[test]
fn rate_limited_reads_retry_after() {
    assert_eq!(
        error_from_response(429, Some(b"17"), "ignored"),
        SpotifyError::RateLimited { retry_after_secs: 17 }
    );
}

#[test]
fn rate_limited_defaults_to_one_second() {
    assert_eq!(
        error_from_response(429, None, ""),
        SpotifyError::RateLimited { retry_after_secs: 1 }
    );
    assert_eq!(retry_after_secs(Some(b"soon")), 1);
    assert_eq!(retry_after_secs(Some(b"")), 1);
    assert_eq!(retry_after_secs(Some(b"-3")), 1);
    assert_eq!(retry_after_secs(Some(b" 3")), 1);
    assert_eq!(retry_after_secs(Some(b"18446744073709551616")), 1);
    assert_eq!(retry_after_secs(Some(&[0xc3, 0xa7])), 1);
}

#[test]
fn retry_after_accepts_plus_and_leading_zeros() {
    assert_eq!(retry_after_secs(Some(b"+5")), 5);
    assert_eq!(retry_after_secs(Some(b"007")), 7);
    assert_eq!(retry_after_secs(Some(b"18446744073709551615")), u64::MAX);
    assert_eq!(retry_after_secs(Some(b"+")), 1);
}

#[test]
fn not_found_with_marker_is_no_active_device() {
    let body = r#"{"error":{"status":404,"message":"Player command failed: No active device found","reason":"NO_ACTIVE_DEVICE"}}"#;
    assert_eq!(error_from_response(404, None, body), SpotifyError::NoActiveDevice);
}

#[test]
fn other_failures_report_status_and_body() {
    assert_eq!(
        error_from_response(404, None, "not here"),
        SpotifyError::Other("Beklenmeyen HTTP durumu 404 Not Found: not here".to_string())
    );
    assert_eq!(
        error_from_response(403, None, "NO_ACTIVE_DEVICE"),
        SpotifyError::Other("Beklenmeyen HTTP durumu 403 Forbidden: NO_ACTIVE_DEVICE".to_string())
    );
    assert_eq!(
        error_from_response(599, None, ""),
        SpotifyError::Other("Beklenmeyen HTTP durumu 599 <unknown status code>: ".to_string())
    );
}

#[test]
fn messages_of_each_error() {
    assert_eq!(SpotifyError::NeedsLogin.message(), "Giriş yapılmamış, önce login() çağrılmalı.");
    assert_eq!(
        SpotifyError::NoActiveDevice.message(),
        "Aktif bir Spotify cihazı bulunamadı. Bir cihazda Spotify'ı açıp bir şarkı çalman/duraklatman gerekiyor."
    );
    assert_eq!(
        SpotifyError::RateLimited { retry_after_secs: 30 }.message(),
        "Spotify'a çok fazla istek atıldı, 30 saniye sonra tekrar dene."
    );
    assert_eq!(SpotifyError::MissingEnv("CLIENT_ID".to_string()).message(), "Ortam değişkeni eksik: CLIENT_ID");
    assert_eq!(SpotifyError::Http("timeout".to_string()).message(), "HTTP hatası: timeout");
    assert_eq!(SpotifyError::Json("eof".to_string()).message(), "JSON hatası: eof");
    assert_eq!(SpotifyError::Io("denied".to_string()).message(), "Dosya hatası: denied");
    assert_eq!(SpotifyError::Other("free text".to_string()).message(), "free text");
}
