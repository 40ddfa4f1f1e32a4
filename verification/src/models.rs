//! The data that Spotify's Web API returns, and the texts shown for a track.

use vstd::prelude::*;
use vstd::string::*;
use crate::text::{chars_value, decimal, is_digit_char, lemma_decimal_reads_back, push_decimal};

verus! {

#[derive(Clone, Debug, PartialEq, Eq)]
pub struct Artist {
    pub name: String,
}

#[derive(Clone, Debug, PartialEq, Eq)]
pub struct SpotifyImage {
    pub url: String,
    pub height: Option<u32>,
    pub width: Option<u32>,
}

#[derive(Clone, Debug, PartialEq, Eq)]
pub struct Album {
    pub name: String,
    pub images: Vec<SpotifyImage>,
    /// The release date, `YYYY`, `YYYY-MM` or `YYYY-MM-DD`.
    pub release_date: Option<String>,
}

#[derive(Clone, Debug, PartialEq, Eq)]
pub struct Track {
    pub id: String,
    pub name: String,
    pub uri: String,
    pub duration_ms: u64,
    pub artists: Vec<Artist>,
    pub album: Album,
    /// Popularity, 0 to 100.
    pub popularity: Option<u8>,
}

#[derive(Clone, Debug, PartialEq, Eq)]
pub struct Device {
    pub id: Option<String>,
    pub name: String,
    pub is_active: bool,
    pub volume_percent: Option<u8>,
}

/// `/v1/me/player` and `/v1/me/player/currently-playing`.
#[derive(Clone, Debug, PartialEq, Eq)]
pub struct SpotifyPlayback {
    pub is_playing: bool,
    pub progress_ms: Option<u64>,
    pub currently_playing_type: String,
    pub item: Option<Track>,
    pub device: Option<Device>,
    pub shuffle_state: Option<bool>,
    pub repeat_state: Option<String>,
}

/// `/v1/me/player/queue`.
#[derive(Clone, Debug, PartialEq, Eq)]
pub struct SpotifyQueue {
    pub currently_playing: Option<Track>,
    pub queue: Vec<Track>,
}

/// `/v1/me/player/devices`.
#[derive(Clone, Debug, PartialEq, Eq)]
pub struct SpotifyDevicesResponse {
    pub devices: Vec<Device>,
}

/// `/v1/search?type=track`.
#[derive(Clone, Debug, PartialEq, Eq)]
pub struct SearchResponse {
    pub tracks: SearchTracksPage,
}

#[derive(Clone, Debug, PartialEq, Eq)]
pub struct SearchTracksPage {
    pub items: Vec<Track>,
}

/// The names of the artists, in order.
pub open spec fn artist_name_seq(artists: Seq<Artist>) -> Seq<Seq<char>> {
    artists.map_values(|a: Artist| a.name@)
}

/// `names` joined with ", " between neighbours.
pub open spec fn join_with_comma(names: Seq<Seq<char>>) -> Seq<char>
    decreases names.len(),
{
    if names.len() == 0 {
        Seq::empty()
    } else if names.len() == 1 {
        names[0]
    } else {
        join_with_comma(names.drop_last()) + seq![',', ' '] + names.last()
    }
}

/// `n` with at least two digits, zero-padded, as `{:02}` renders it.
pub open spec fn pad2(n: nat) -> Seq<char> {
    if n < 10 {
        seq!['0'] + decimal(n)
    } else {
        decimal(n)
    }
}

/// A duration in milliseconds as `m:ss`: whole minutes, then the remaining
/// whole seconds with two digits.
pub open spec fn minutes_seconds(ms: u64) -> Seq<char> {
    let total = ms / 1000;
    decimal((total / 60) as nat) + seq![':'] + pad2((total % 60) as nat)
}

/// A duration text reads back as the duration: it is the minutes, a colon,
/// and exactly two digits of seconds; the minutes hold only digits (so the
/// first colon is the separator), the seconds are below 60, and minutes times
/// 60 plus seconds give the whole seconds of `ms`.
pub proof fn lemma_duration_reads_back(ms: u64)
    ensures
        minutes_seconds(ms) == decimal(((ms / 1000) / 60) as nat) + seq![':'] + pad2(
            ((ms / 1000) % 60) as nat,
        ),
        forall|i: int|
            0 <= i < decimal(((ms / 1000) / 60) as nat).len() ==> is_digit_char(
                #[trigger] decimal(((ms / 1000) / 60) as nat)[i],
            ),
        pad2(((ms / 1000) % 60) as nat).len() == 2,
        forall|i: int|
            0 <= i < 2 ==> is_digit_char(#[trigger] pad2(((ms / 1000) % 60) as nat)[i]),
        chars_value(pad2(((ms / 1000) % 60) as nat)) < 60,
        chars_value(decimal(((ms / 1000) / 60) as nat)) * 60 + chars_value(
            pad2(((ms / 1000) % 60) as nat),
        ) == ms / 1000,
{
    let total = ms / 1000;
    let m = (total / 60) as nat;
    let s = (total % 60) as nat;
    lemma_decimal_reads_back(m);
    lemma_decimal_reads_back(s);
    if s < 10 {
        let p = pad2(s);
        assert(p == seq!['0'] + decimal(s));
        assert(decimal(s) =~= seq![crate::text::digit_char(s as int)]);
        assert(p.drop_last() =~= seq!['0']);
        lemma_decimal_reads_back(0);
        assert(decimal(0) =~= seq!['0']);
        assert(chars_value(p) == chars_value(p.drop_last()) * 10 + ((p.last() as u32) - 48) as nat);
    } else {
        assert(decimal(s) =~= decimal(s / 10).push(crate::text::digit_char((s % 10) as int)));
        lemma_decimal_reads_back(s / 10);
        assert(s / 10 < 10);
        assert(decimal(s / 10).len() == 1);
    }
    assert(m * 60 + s == total);
}

/// The year shown in a search result: ` (YYYY)` from the first four
/// characters of the release date, or nothing without a release date.
pub open spec fn year_part(release_date: Option<String>) -> Seq<char> {
    match release_date {
        Some(d) => if d@.len() == 0 {
            Seq::empty()
        } else {
            seq![' ', '('] + d@.take(if d@.len() < 4 {
                d@.len() as int
            } else {
                4
            }) + seq![')']
        },
        None => Seq::empty(),
    }
}

/// The one-line summary of a track in a list of search results:
/// `name - artists | album (year) [m:ss]`.
pub open spec fn search_label(t: Track) -> Seq<char> {
    t.name@ + seq![' ', '-', ' '] + join_with_comma(artist_name_seq(t.artists@)) + seq![
        ' ',
        '|',
        ' ',
    ] + t.album.name@ + year_part(t.album.release_date) + seq![' ', '['] + minutes_seconds(
        t.duration_ms,
    ) + seq![']']
}

/// The label shows the year of any non-empty release date: right after the
/// album name come " (", the first four characters of the date (all of it
/// when shorter), and ")", then the duration in brackets.
pub proof fn lemma_label_shows_year(t: Track, d: String)
    requires
        t.album.release_date == Some(d),
        d@.len() > 0,
    ensures
        search_label(t) == t.name@ + seq![' ', '-', ' '] + join_with_comma(
            artist_name_seq(t.artists@),
        ) + seq![' ', '|', ' '] + t.album.name@ + seq![' ', '('] + d@.take(
            if d@.len() < 4 {
                d@.len() as int
            } else {
                4
            },
        ) + seq![')', ' ', '['] + minutes_seconds(t.duration_ms) + seq![']'],
{
    assert(search_label(t) =~= t.name@ + seq![' ', '-', ' '] + join_with_comma(
        artist_name_seq(t.artists@),
    ) + seq![' ', '|', ' '] + t.album.name@ + seq![' ', '('] + d@.take(
        if d@.len() < 4 {
            d@.len() as int
        } else {
            4
        },
    ) + seq![')', ' ', '['] + minutes_seconds(t.duration_ms) + seq![']']);
}

/// Without a release date, the duration in brackets follows the album name
/// directly.
pub proof fn lemma_label_without_date(t: Track)
    requires
        t.album.release_date is None,
    ensures
        search_label(t) == t.name@ + seq![' ', '-', ' '] + join_with_comma(
            artist_name_seq(t.artists@),
        ) + seq![' ', '|', ' '] + t.album.name@ + seq![' ', '['] + minutes_seconds(t.duration_ms)
            + seq![']'],
{
    assert(search_label(t) =~= t.name@ + seq![' ', '-', ' '] + join_with_comma(
        artist_name_seq(t.artists@),
    ) + seq![' ', '|', ' '] + t.album.name@ + seq![' ', '['] + minutes_seconds(t.duration_ms)
        + seq![']']);
}

fn push_artist_names(out: &mut String, artists: &Vec<Artist>)
    ensures
        final(out)@ == old(out)@ + join_with_comma(artist_name_seq(artists@)),
{
    let ghost start = out@;
    let ghost names = artist_name_seq(artists@);
    let n = artists.len();
    for i in 0..n
        invariant
            n == artists@.len(),
            names == artist_name_seq(artists@),
            out@ == start + join_with_comma(names.take(i as int)),
    {
        proof {
            reveal_strlit(", ");
        }
        assert(names.take(i + 1).drop_last() =~= names.take(i as int));
        assert(names.take(i + 1).last() == artists@[i as int].name@);
        if i == 0 {
            assert(names.take(1) =~= seq![names[0]]);
        } else {
            out.append(", ");
        }
        out.append(artists[i].name.as_str());
        assert(out@ =~= start + join_with_comma(names.take(i + 1)));
    }
    assert(names.take(n as int) =~= names);
}

fn push_minutes_seconds(out: &mut String, ms: u64)
    ensures
        final(out)@ == old(out)@ + minutes_seconds(ms),
{
    proof {
        reveal_strlit(":");
        reveal_strlit("0");
    }
    let total = ms / 1000;
    push_decimal(out, total / 60);
    out.append(":");
    let secs = total % 60;
    if secs < 10 {
        out.append("0");
    }
    push_decimal(out, secs);
    assert(out@ =~= old(out)@ + minutes_seconds(ms));
}

impl Track {
    /// The artists as "Artist 1, Artist 2", for display.
    pub fn artist_names(&self) -> (r: String)
        ensures
            r@ == join_with_comma(artist_name_seq(self.artists@)),
    {
        let mut s = String::new();
        push_artist_names(&mut s, &self.artists);
        assert(s@ =~= join_with_comma(artist_name_seq(self.artists@)));
        s
    }

    /// The duration as `m:ss`.
    pub fn duration_formatted(&self) -> (r: String)
        ensures
            r@ == minutes_seconds(self.duration_ms),
    {
        let mut s = String::new();
        push_minutes_seconds(&mut s, self.duration_ms);
        assert(s@ =~= minutes_seconds(self.duration_ms));
        s
    }

    /// A one-line summary that tells apart versions of a song with the same
    /// name: `name - artists | album (year) [m:ss]`.
    pub fn search_result_label(&self) -> (r: String)
        ensures
            r@ == search_label(*self),
    {
        proof {
            reveal_strlit(" - ");
            reveal_strlit(" | ");
            reveal_strlit(" (");
            reveal_strlit(")");
            reveal_strlit(" [");
            reveal_strlit("]");
        }
        let mut s = String::from_str(self.name.as_str());
        s.append(" - ");
        push_artist_names(&mut s, &self.artists);
        s.append(" | ");
        s.append(self.album.name.as_str());
        match &self.album.release_date {
            Some(d) => {
                let len = d.as_str().unicode_len();
                if len > 0 {
                    let k = if len < 4 {
                        len
                    } else {
                        4
                    };
                    s.append(" (");
                    s.append(d.as_str().substring_char(0, k));
                    s.append(")");
                }
            },
            None => {},
        }
        s.append(" [");
        push_minutes_seconds(&mut s, self.duration_ms);
        s.append("]");
        assert(s@ =~= search_label(*self));
        s
    }
}

} // verus!
