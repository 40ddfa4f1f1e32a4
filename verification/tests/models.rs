use spotify_control::{Album, Artist, Track};

fn track(name: &str, artists: &[&str], duration_ms: u64, release_date: Option<&str>) -> Track {
    Track {
        id: "id1".to_string(),
        name: name.to_string(),
        uri: "spotify:track:id1".to_string(),
        duration_ms,
        artists: artists.iter().map(|a| Artist { name: a.to_string() }).collect(),
        album: Album {
            name: "A Night at the Opera".to_string(),
            images: Vec::new(),
            release_date: release_date.map(|d| d.to_string()),
        },
        popularity: Some(80),
    }
}

#[test]
fn artist_names_joins_with_comma() {
    let t = track("Song", &["Queen", "David Bowie", "Annie Lennox"], 1000, None);
    assert_eq!(t.artist_names(), "Queen, David Bowie, Annie Lennox");
}

#[test]
fn artist_names_single_and_none() {
    assert_eq!(track("Song", &["Queen"], 0, None).artist_names(), "Queen");
    assert_eq!(track("Song", &[], 0, None).artist_names(), "");
}

#[test]
fn duration_formatted_pads_seconds() {
    assert_eq!(track("S", &[], 354_947, None).duration_formatted(), "5:54");
    assert_eq!(track("S", &[], 65_999, None).duration_formatted(), "1:05");
    assert_eq!(track("S", &[], 999, None).duration_formatted(), "0:00");
    assert_eq!(track("S", &[], 59_000, None).duration_formatted(), "0:59");
}

#[test]
fn duration_formatted_long_tracks_keep_all_minutes() {
    assert_eq!(track("S", &[], 3_600_000, None).duration_formatted(), "60:00");
    assert_eq!(track("S", &[], 6_010_000, None).duration_formatted(), "100:10");
}

#[test]
fn search_result_label_with_year() {
    let t = track("Bohemian Rhapsody", &["Queen"], 354_947, Some("1975-11-21"));
    assert_eq!(
        t.search_result_label(),
        "Bohemian Rhapsody - Queen | A Night at the Opera (1975) [5:54]"
    );
}

#[test]
fn search_result_label_without_date() {
    let t = track("Song", &["A", "B"], 61_000, None);
    assert_eq!(t.search_result_label(), "Song - A, B | A Night at the Opera [1:01]");
    let t = track("Song", &["A"], 61_000, Some("19"));
    assert_eq!(t.search_result_label(), "Song - A | A Night at the Opera (19) [1:01]");
}
