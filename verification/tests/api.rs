use spotify_control::api::{
    authorization_code, authorize_url, callback_outcome, classify_status, play_track_request,
    playback_device_id, playback_reply, request_for, search_results, ApiCall, HttpMethod, PlaybackReply,
    RequestBody, StatusClass,
};
use spotify_control::{Album, Device, SearchTracksPage, SpotifyError, Track};

fn pairs(p: &[(&str, &str)]) -> Vec<(String, String)> {
    p.iter().map(|(k, v)| (k.to_string(), v.to_string())).collect()
}

fn device(id: Option<&str>, active: bool) -> Device {
    Device { id: id.map(|s| s.to_string()), name: "d".to_string(), is_active: active, volume_percent: None }
}

#[test]
fn get_requests() {
    let r = request_for(&ApiCall::CurrentStatus);
    assert_eq!(r.method, HttpMethod::Get);
    assert_eq!(r.url, "https://api.spotify.com/v1/me/player/currently-playing");
    assert!(r.query.is_empty());
    assert_eq!(r.body, RequestBody::NoBody);
    assert_eq!(request_for(&ApiCall::PlayerStatus).url, "https://api.spotify.com/v1/me/player");
    assert_eq!(request_for(&ApiCall::Queue).url, "https://api.spotify.com/v1/me/player/queue");
    assert_eq!(request_for(&ApiCall::Devices).url, "https://api.spotify.com/v1/me/player/devices");
}

#[test]
fn search_request_clamps_limit() {
    let r = request_for(&ApiCall::Search { query: "bohemian rhapsody".to_string(), limit: 5 });
    assert_eq!(r.url, "https://api.spotify.com/v1/search");
    assert_eq!(
        r.query,
        pairs(&[("q", "bohemian rhapsody"), ("type", "track"), ("limit", "5"), ("market", "TR")])
    );
    let r = request_for(&ApiCall::Search { query: "x".to_string(), limit: 0 });
    assert_eq!(r.query[2], ("limit".to_string(), "1".to_string()));
    let r = request_for(&ApiCall::Search { query: "x".to_string(), limit: 200 });
    assert_eq!(r.query[2], ("limit".to_string(), "50".to_string()));
}

#[test]
fn playback_control_requests() {
    let r = request_for(&ApiCall::Pause);
    assert_eq!((r.method, r.url.as_str(), r.body), (HttpMethod::Put, "https://api.spotify.com/v1/me/player/pause", RequestBody::Empty));
    let r = request_for(&ApiCall::Play { device_id: Some("dev1".to_string()) });
    assert_eq!(r.method, HttpMethod::Put);
    assert_eq!(r.url, "https://api.spotify.com/v1/me/player/play");
    assert_eq!(r.query, pairs(&[("device_id", "dev1")]));
    assert!(request_for(&ApiCall::Play { device_id: None }).query.is_empty());
    let r = request_for(&ApiCall::Next);
    assert_eq!((r.method, r.url.as_str()), (HttpMethod::Post, "https://api.spotify.com/v1/me/player/next"));
    let r = request_for(&ApiCall::Previous);
    assert_eq!((r.method, r.url.as_str()), (HttpMethod::Post, "https://api.spotify.com/v1/me/player/previous"));
    let r = request_for(&ApiCall::AddToQueue { track_uri: "spotify:track:4cOdK2wGLETKBW3PvgPWqT".to_string() });
    assert_eq!(r.method, HttpMethod::Post);
    assert_eq!(r.url, "https://api.spotify.com/v1/me/player/queue");
    assert_eq!(r.query, pairs(&[("uri", "spotify:track:4cOdK2wGLETKBW3PvgPWqT")]));
    assert_eq!(r.body, RequestBody::Empty);
}

#[test]
fn volume_request_caps_at_100() {
    let r = request_for(&ApiCall::SetVolume { volume_percent: 50 });
    assert_eq!(r.url, "https://api.spotify.com/v1/me/player/volume");
    assert_eq!(r.query, pairs(&[("volume_percent", "50")]));
    let r = request_for(&ApiCall::SetVolume { volume_percent: 255 });
    assert_eq!(r.query, pairs(&[("volume_percent", "100")]));
}

#[test]
fn token_requests() {
    let r = request_for(&ApiCall::RefreshToken { refresh_token: "rt".to_string() });
    assert_eq!((r.method, r.url.as_str()), (HttpMethod::Post, "https://accounts.spotify.com/api/token"));
    assert_eq!(r.body, RequestBody::Form(pairs(&[("refresh_token", "rt"), ("grant_type", "refresh_token")])));
    let r = request_for(&ApiCall::ExchangeCode { code: "c0de".to_string() });
    assert_eq!(
        r.body,
        RequestBody::Form(pairs(&[
            ("grant_type", "authorization_code"),
            ("code", "c0de"),
            ("redirect_uri", "http://127.0.0.1:8080/callback"),
        ]))
    );
}

#[test]
fn play_track_body_is_json() {
    let r = play_track_request("spotify:track:abc", Some("dev".to_string()));
    assert_eq!(r.method, HttpMethod::Put);
    assert_eq!(r.url, "https://api.spotify.com/v1/me/player/play");
    assert_eq!(r.query, pairs(&[("device_id", "dev")]));
    assert_eq!(r.body, RequestBody::Json(r#"{"uris":["spotify:track:abc"]}"#.to_string()));
    let r = play_track_request("a\"b", None);
    assert_eq!(r.body, RequestBody::Json(r#"{"uris":["a\"b"]}"#.to_string()));
    assert!(r.query.is_empty());
}

#[test]
fn status_classes() {
    assert_eq!(classify_status(200), StatusClass::Content);
    assert_eq!(classify_status(204), StatusClass::NoContent);
    assert_eq!(classify_status(299), StatusClass::Content);
    assert_eq!(classify_status(199), StatusClass::Failure);
    assert_eq!(classify_status(300), StatusClass::Failure);
    assert_eq!(classify_status(404), StatusClass::Failure);
}

#[test]
fn device_choice_prefers_active() {
    let devs = vec![device(Some("a"), false), device(Some("b"), true), device(Some("c"), true)];
    assert_eq!(playback_device_id(&devs), Some("b".to_string()));
}

#[test]
fn device_choice_falls_back_to_first() {
    let devs = vec![device(Some("a"), false), device(Some("b"), false)];
    assert_eq!(playback_device_id(&devs), Some("a".to_string()));
    assert_eq!(playback_device_id(&Vec::new()), None);
    let devs = vec![device(None, true), device(Some("b"), false)];
    assert_eq!(playback_device_id(&devs), None);
}

#[test]
fn authorize_url_encodes_pairs() {
    assert_eq!(
        authorize_url("my id").unwrap(),
        "https://accounts.spotify.com/authorize?client_id=my+id&response_type=code&redirect_uri=http%3A%2F%2F127.0.0.1%3A8080%2Fcallback&scope=user-modify-playback-state+user-read-playback-state+user-read-currently-playing"
    );
}

#[test]
fn callback_with_code() {
    let o = callback_outcome("/callback?state=x&code=AQB%2Fz+y&code=second");
    assert_eq!(o.code, Some("AQB/z y".to_string()));
    assert_eq!(
        o.reply,
        Some("Giriş başarılı! Botu artık kullanabilirsiniz. Bu sekmeyi kapatabilirsiniz.".to_string())
    );
}

#[test]
fn callback_without_code() {
    let o = callback_outcome("/callback?error=access_denied");
    assert_eq!(o.code, None);
    assert_eq!(o.reply, Some("Giriş başarısız. Botun sahibi ile konuşun".to_string()));
}

#[test]
fn callback_with_bad_url_is_unanswered() {
    let o = callback_outcome(":99999999/x");
    assert_eq!(o.code, None);
    assert_eq!(o.reply, None);
}

#[test]
fn missing_code_is_an_error() {
    assert_eq!(authorization_code(Some("c".to_string())), Ok("c".to_string()));
    assert_eq!(
        authorization_code(None),
        Err(SpotifyError::Other("Auth kodunu alırken bir sorun yaşandı".to_string()))
    );
}

#[test]
fn redirect_uri_same_in_both_steps() {
    let r = request_for(&ApiCall::ExchangeCode { code: "c".to_string() });
    match r.body {
        RequestBody::Form(f) => assert_eq!(
            f[2],
            ("redirect_uri".to_string(), "http://127.0.0.1:8080/callback".to_string())
        ),
        other => panic!("unexpected body {:?}", other),
    }
    assert!(authorize_url("id").unwrap().contains("redirect_uri=http%3A%2F%2F127.0.0.1%3A8080%2Fcallback"));
}

#[test]
fn play_track_body_escapes_controls() {
    let r = play_track_request("t\\a\n\u{1}\u{1f}ç\u{7f}", None);
    assert_eq!(r.body, RequestBody::Json("{\"uris\":[\"t\\\\a\\n\\u0001\\u001fç\u{7f}\"]}".to_string()));
}

#[test]
fn playback_replies() {
    assert_eq!(playback_reply(204, ""), PlaybackReply::NoPlayback);
    assert_eq!(playback_reply(200, " \n "), PlaybackReply::NoPlayback);
    assert_eq!(playback_reply(200, "{}"), PlaybackReply::Playback);
}

fn numbered_tracks(n: usize) -> Vec<Track> {
    (0..n)
        .map(|i| Track {
            id: i.to_string(),
            name: format!("t{}", i),
            uri: format!("spotify:track:{}", i),
            duration_ms: 1000,
            artists: Vec::new(),
            album: Album { name: "a".to_string(), images: Vec::new(), release_date: None },
            popularity: None,
        })
        .collect()
}

#[test]
fn search_results_keep_at_most_limit() {
    let r = search_results(SearchTracksPage { items: numbered_tracks(8) }, 5);
    assert_eq!(r.iter().map(|t| t.id.as_str()).collect::<Vec<_>>(), vec!["0", "1", "2", "3", "4"]);
    assert_eq!(search_results(SearchTracksPage { items: numbered_tracks(3) }, 5).len(), 3);
    assert_eq!(search_results(SearchTracksPage { items: numbered_tracks(3) }, 0).len(), 1);
    assert_eq!(search_results(SearchTracksPage { items: numbered_tracks(60) }, 200).len(), 50);
}
