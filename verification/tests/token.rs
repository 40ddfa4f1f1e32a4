use spotify_control::token::{keep_refresh_token, plan_token_use, plan_token_use_at, stamp_at, stamp_now, TokenStep};
use spotify_control::{SpotifyError, Timestamp, Token, TokenError};

fn token(expires_in: u16, refresh: Option<&str>, obtained_at: Option<Timestamp>) -> Token {
    Token {
        access_token: "acc".to_string(),
        token_type: "Bearer".to_string(),
        expires_in,
        refresh_token: refresh.map(|r| r.to_string()),
        scope: "s".to_string(),
        obtained_at,
    }
}

fn at(secs: u64, nanos: u32) -> Option<Timestamp> {
    Some(Timestamp { secs, nanos })
}

#[test]
fn expiry_uses_sixty_second_margin() {
    let t = token(3600, None, at(1000, 0));
    assert!(!t.is_expired_at(at(1000, 0)));
    assert!(!t.is_expired_at(at(1000 + 3540, 0)));
    assert!(t.is_expired_at(at(1000 + 3541, 0)));
}

#[test]
fn expiry_counts_whole_seconds() {
    let t = token(3600, None, at(1000, 500_000_000));
    // 3540.9 seconds elapsed: 3540 whole seconds, not expired.
    assert!(!t.is_expired_at(at(4541, 400_000_000)));
    // 3541.0 seconds elapsed.
    assert!(t.is_expired_at(at(4541, 500_000_000)));
}

#[test]
fn clock_behind_obtained_time_is_expired() {
    let t = token(3600, None, at(1000, 10));
    assert!(t.is_expired_at(at(1000, 9)));
    assert!(t.is_expired_at(at(999, 999_999_999)));
    assert!(t.is_expired_at(None));
}

#[test]
fn missing_obtained_time_counts_from_epoch() {
    let t = token(3600, None, None);
    assert!(!t.is_expired_at(at(3540, 0)));
    assert!(t.is_expired_at(at(3541, 0)));
}

#[test]
fn short_lived_token_is_expired_at_once() {
    let t = token(59, None, at(1000, 0));
    assert!(t.is_expired_at(at(1000, 0)));
    let t = token(60, None, at(1000, 0));
    assert!(!t.is_expired_at(at(1000, 0)));
}

#[test]
fn is_expired_reads_the_clock() {
    assert!(token(3600, None, None).is_expired());
    let mut t = token(3600, None, None);
    stamp_now(&mut t).unwrap();
    assert!(t.obtained_at.is_some());
    assert!(!t.is_expired());
}

#[test]
fn plan_without_token_needs_login() {
    assert_eq!(plan_token_use_at(None, at(5, 0)), Err(SpotifyError::NeedsLogin));
    assert_eq!(plan_token_use(None), Err(SpotifyError::NeedsLogin));
}

#[test]
fn plan_uses_valid_token() {
    let t = token(3600, Some("r"), at(1000, 0));
    assert_eq!(plan_token_use_at(Some(t.clone()), at(1100, 0)), Ok(TokenStep::Use(t)));
}

#[test]
fn plan_refreshes_expired_token() {
    let t = token(3600, Some("r"), at(1000, 0));
    assert_eq!(
        plan_token_use_at(Some(t), at(9000, 0)),
        Ok(TokenStep::Refresh("r".to_string()))
    );
}

#[test]
fn plan_expired_without_refresh_needs_login() {
    let t = token(3600, None, at(1000, 0));
    assert_eq!(plan_token_use_at(Some(t), at(9000, 0)), Err(SpotifyError::NeedsLogin));
}

#[test]
fn plan_with_clock_refreshes_old_token() {
    let t = token(3600, Some("r"), None);
    assert_eq!(plan_token_use(Some(t)), Ok(TokenStep::Refresh("r".to_string())));
}

#[test]
fn refresh_keeps_previous_refresh_token() {
    let fresh = token(3600, None, None);
    let t = keep_refresh_token(fresh, "old".to_string());
    assert_eq!(t.refresh_token, Some("old".to_string()));
    assert_eq!(t.access_token, "acc");
}

#[test]
fn refresh_takes_new_refresh_token() {
    let fresh = token(3600, Some("new"), None);
    let t = keep_refresh_token(fresh, "old".to_string());
    assert_eq!(t.refresh_token, Some("new".to_string()));
}

#[test]
fn stamp_sets_obtained_time() {
    let mut t = token(3600, None, None);
    assert_eq!(stamp_at(&mut t, at(77, 5)), Ok(()));
    assert_eq!(t.obtained_at, at(77, 5));
    assert!(!t.is_expired_at(at(77, 5)));
}

#[test]
fn stamp_refuses_clock_before_epoch() {
    let mut t = token(3600, None, at(1, 0));
    assert_eq!(
        stamp_at(&mut t, None),
        Err(SpotifyError::Json("SystemTime must be later than UNIX_EPOCH".to_string()))
    );
    assert_eq!(t.obtained_at, at(1, 0));
}

#[test]
fn login_notice_texts() {
    assert_eq!(
        TokenError::FileNotFound("yok".to_string()).login_notice(),
        "token.json dosyası bulunamadı: yok | yeni token alınıyor."
    );
    assert_eq!(
        TokenError::FileReadError("x".to_string()).login_notice(),
        "token.json dosyası bozuk: x | yeni token alınıyor."
    );
    assert_eq!(
        TokenError::InvalidTokenSaveFile("y".to_string()).login_notice(),
        "token.json dosyası bozuk: y | yeni token alınıyor."
    );
}

#[test]
fn expired_token_stays_expired() {
    let t = token(100, None, at(1000, 0));
    assert!(t.is_expired_at(at(1041, 0)));
    assert!(t.is_expired_at(at(2000, 0)));
    assert!(t.is_expired_at(at(u64::MAX, 999_999_999)));
}
