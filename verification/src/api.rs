//! What each operation of the client sends to Spotify, and how the answers
//! are read. The network itself is driven from outside this crate.

use vstd::prelude::*;
use vstd::string::*;
use crate::api_list::{
    AUTHORIZE, CALLBACKURL, CALLBACK_ORIGIN, CURRENT_STATUS, PLAYER_DEVICES, PLAYER_NEXT,
    PLAYER_PAUSE, PLAYER_PLAY, PLAYER_PREVIOUS, PLAYER_QUEUE, PLAYER_QUEUE_ADD, PLAYER_STATUS,
    PLAYER_VOLUME, SCOPES, SEARCH, TOKENAPI,
};
use crate::error::SpotifyError;
use crate::models::{Device, SearchTracksPage, Track};
use crate::text::{decimal, decimal_string, is_blank, is_blank_seq};

verus! {

/// The HTTP method of a request.
#[derive(Clone, Copy, Debug, PartialEq, Eq)]
pub enum HttpMethod {
    Get,
    Put,
    Post,
}

/// The body of a request.
#[derive(Clone, Debug, PartialEq, Eq)]
pub enum RequestBody {
    /// No body at all.
    NoBody,
    /// An empty body.
    Empty,
    /// A JSON document.
    Json(String),
    /// A form, `application/x-www-form-urlencoded`, from these pairs.
    Form(Vec<(String, String)>),
}

/// A request to send: the bearer token (API calls) or the client
/// credentials (token calls) are added by the sender.
#[derive(Clone, Debug, PartialEq, Eq)]
pub struct ApiRequest {
    pub method: HttpMethod,
    pub url: String,
    pub query: Vec<(String, String)>,
    pub body: RequestBody,
}

/// The content of a request body.
#[verifier::ext_equal]
pub ghost enum BodyView {
    NoBody,
    Empty,
    Json(Seq<char>),
    Form(Seq<(Seq<char>, Seq<char>)>),
}

/// The content of a request.
#[verifier::ext_equal]
pub ghost struct ApiRequestView {
    pub method: HttpMethod,
    pub url: Seq<char>,
    pub query: Seq<(Seq<char>, Seq<char>)>,
    pub body: BodyView,
}

/// The text of each pair.
pub open spec fn pairs_view(v: Seq<(String, String)>) -> Seq<(Seq<char>, Seq<char>)> {
    v.map_values(|p: (String, String)| (p.0@, p.1@))
}

impl View for RequestBody {
    type V = BodyView;

    open spec fn view(&self) -> BodyView {
        match self {
            RequestBody::NoBody => BodyView::NoBody,
            RequestBody::Empty => BodyView::Empty,
            RequestBody::Json(s) => BodyView::Json(s@),
            RequestBody::Form(p) => BodyView::Form(pairs_view(p@)),
        }
    }
}

impl View for ApiRequest {
    type V = ApiRequestView;

    open spec fn view(&self) -> ApiRequestView {
        ApiRequestView {
            method: self.method,
            url: self.url@,
            query: pairs_view(self.query@),
            body: self.body@,
        }
    }
}

/// An operation of the client, with what it needs to be sent.
#[derive(Clone, Debug, PartialEq, Eq)]
pub enum ApiCall {
    CurrentStatus,
    PlayerStatus,
    Queue,
    Devices,
    Search { query: String, limit: u8 },
    Pause,
    Play { device_id: Option<String> },
    SetVolume { volume_percent: u8 },
    Next,
    Previous,
    AddToQueue { track_uri: String },
    RefreshToken { refresh_token: String },
    ExchangeCode { code: String },
}

/// The number of search results asked for: `limit` held to 1..=50.
pub open spec fn search_limit(limit: u8) -> u8 {
    if limit < 1 {
        1
    } else if limit > 50 {
        50
    } else {
        limit
    }
}

/// How many results a search keeps out of `available`: at most the limit
/// asked for.
pub open spec fn search_result_count(available: nat, limit: u8) -> int {
    if available < search_limit(limit) {
        available as int
    } else {
        search_limit(limit) as int
    }
}

/// A search gives back at most 50 tracks, never more than the limit asked
/// for (held to 1..=50), and never more than Spotify sent.
pub proof fn lemma_search_results_bounded(available: nat, limit: u8)
    ensures
        search_result_count(available, limit) <= 50,
        search_result_count(available, limit) <= search_limit(limit),
        search_result_count(available, limit) <= available,
        0 <= search_result_count(available, limit),
{
}

/// The tracks that a search gives back: the most relevant ones, in the
/// order Spotify ranks them, and no more than the limit (held to 1..=50)
/// asked for.
pub fn search_results(page: SearchTracksPage, limit: u8) -> (r: Vec<Track>)
    ensures
        r@ == page.items@.take(search_result_count(page.items@.len(), limit)),
{
    let l: u8 = if limit < 1 {
        1
    } else if limit > 50 {
        50
    } else {
        limit
    };
    let mut items = page.items;
    items.truncate(l as usize);
    assert(items@ =~= page.items@.take(search_result_count(page.items@.len(), limit)));
    items
}

/// The volume sent: at most 100 percent.
pub open spec fn volume_sent(volume_percent: u8) -> u8 {
    if volume_percent > 100 {
        100
    } else {
        volume_percent
    }
}

/// A search always asks for between 1 and 50 results, and for exactly the
/// number given when it lies in that range.
pub proof fn lemma_search_limit_in_range(limit: u8)
    ensures
        1 <= search_limit(limit) <= 50,
        1 <= limit <= 50 ==> search_limit(limit) == limit,
{
}

/// The volume sent never exceeds 100 percent, and is the one given when it
/// does not.
pub proof fn lemma_volume_at_most_100(volume_percent: u8)
    ensures
        volume_sent(volume_percent) <= 100,
        volume_percent <= 100 ==> volume_sent(volume_percent) == volume_percent,
{
}

/// The `device_id` query that targets a device, if one is known.
pub open spec fn device_query(device_id: Option<String>) -> Seq<(Seq<char>, Seq<char>)> {
    match device_id {
        Some(id) => seq![("device_id"@, id@)],
        None => Seq::empty(),
    }
}

pub open spec fn plain_request(method: HttpMethod, url: Seq<char>, body: BodyView) -> ApiRequestView {
    ApiRequestView { method, url, query: Seq::empty(), body }
}

/// What each operation sends.
pub open spec fn request_spec(call: ApiCall) -> ApiRequestView {
    match call {
        ApiCall::CurrentStatus => plain_request(HttpMethod::Get, CURRENT_STATUS@, BodyView::NoBody),
        ApiCall::PlayerStatus => plain_request(HttpMethod::Get, PLAYER_STATUS@, BodyView::NoBody),
        ApiCall::Queue => plain_request(HttpMethod::Get, PLAYER_QUEUE@, BodyView::NoBody),
        ApiCall::Devices => plain_request(HttpMethod::Get, PLAYER_DEVICES@, BodyView::NoBody),
        ApiCall::Search { query, limit } => ApiRequestView {
            method: HttpMethod::Get,
            url: SEARCH@,
            query: seq![
                ("q"@, query@),
                ("type"@, "track"@),
                ("limit"@, decimal(search_limit(limit) as nat)),
                ("market"@, "TR"@),
            ],
            body: BodyView::NoBody,
        },
        ApiCall::Pause => plain_request(HttpMethod::Put, PLAYER_PAUSE@, BodyView::Empty),
        ApiCall::Play { device_id } => ApiRequestView {
            method: HttpMethod::Put,
            url: PLAYER_PLAY@,
            query: device_query(device_id),
            body: BodyView::Empty,
        },
        ApiCall::SetVolume { volume_percent } => ApiRequestView {
            method: HttpMethod::Put,
            url: PLAYER_VOLUME@,
            query: seq![("volume_percent"@, decimal(volume_sent(volume_percent) as nat))],
            body: BodyView::Empty,
        },
        ApiCall::Next => plain_request(HttpMethod::Post, PLAYER_NEXT@, BodyView::Empty),
        ApiCall::Previous => plain_request(HttpMethod::Post, PLAYER_PREVIOUS@, BodyView::Empty),
        ApiCall::AddToQueue { track_uri } => ApiRequestView {
            method: HttpMethod::Post,
            url: PLAYER_QUEUE_ADD@,
            query: seq![("uri"@, track_uri@)],
            body: BodyView::Empty,
        },
        ApiCall::RefreshToken { refresh_token } => plain_request(
            HttpMethod::Post,
            TOKENAPI@,
            BodyView::Form(seq![("refresh_token"@, refresh_token@), ("grant_type"@, "refresh_token"@)]),
        ),
        ApiCall::ExchangeCode { code } => plain_request(
            HttpMethod::Post,
            TOKENAPI@,
            BodyView::Form(
                seq![
                    ("grant_type"@, "authorization_code"@),
                    ("code"@, code@),
                    ("redirect_uri"@, CALLBACKURL@),
                ],
            ),
        ),
    }
}

fn pair(k: &str, v: &str) -> (r: (String, String))
    ensures
        r.0@ == k@,
        r.1@ == v@,
{
    (String::from_str(k), String::from_str(v))
}

fn request(method: HttpMethod, url: &str, query: Vec<(String, String)>, body: RequestBody) -> (r:
    ApiRequest)
    ensures
        r.method == method,
        r.url@ == url@,
        r.query == query,
        r.body == body,
{
    ApiRequest { method, url: String::from_str(url), query, body }
}

/// The request that an operation sends.
pub fn request_for(call: &ApiCall) -> (r: ApiRequest)
    ensures
        r@ == request_spec(*call),
{
    let r = match call {
        ApiCall::CurrentStatus => request(HttpMethod::Get, CURRENT_STATUS, Vec::new(), RequestBody::NoBody),
        ApiCall::PlayerStatus => request(HttpMethod::Get, PLAYER_STATUS, Vec::new(), RequestBody::NoBody),
        ApiCall::Queue => request(HttpMethod::Get, PLAYER_QUEUE, Vec::new(), RequestBody::NoBody),
        ApiCall::Devices => request(HttpMethod::Get, PLAYER_DEVICES, Vec::new(), RequestBody::NoBody),
        ApiCall::Search { query, limit } => {
            let l: u8 = if *limit < 1 {
                1
            } else if *limit > 50 {
                50
            } else {
                *limit
            };
            let q = vec![
                pair("q", query.as_str()),
                pair("type", "track"),
                (String::from_str("limit"), decimal_string(l as u64)),
                pair("market", "TR"),
            ];
            request(HttpMethod::Get, SEARCH, q, RequestBody::NoBody)
        },
        ApiCall::Pause => request(HttpMethod::Put, PLAYER_PAUSE, Vec::new(), RequestBody::Empty),
        ApiCall::Play { device_id } => {
            let mut q = Vec::new();
            match device_id {
                Some(id) => q.push(pair("device_id", id.as_str())),
                None => {},
            }
            request(HttpMethod::Put, PLAYER_PLAY, q, RequestBody::Empty)
        },
        ApiCall::SetVolume { volume_percent } => {
            let v: u8 = if *volume_percent > 100 {
                100
            } else {
                *volume_percent
            };
            let q = vec![(String::from_str("volume_percent"), decimal_string(v as u64))];
            request(HttpMethod::Put, PLAYER_VOLUME, q, RequestBody::Empty)
        },
        ApiCall::Next => request(HttpMethod::Post, PLAYER_NEXT, Vec::new(), RequestBody::Empty),
        ApiCall::Previous => request(HttpMethod::Post, PLAYER_PREVIOUS, Vec::new(), RequestBody::Empty),
        ApiCall::AddToQueue { track_uri } => {
            let q = vec![pair("uri", track_uri.as_str())];
            request(HttpMethod::Post, PLAYER_QUEUE_ADD, q, RequestBody::Empty)
        },
        ApiCall::RefreshToken { refresh_token } => {
            let form = vec![
                pair("refresh_token", refresh_token.as_str()),
                pair("grant_type", "refresh_token"),
            ];
            request(HttpMethod::Post, TOKENAPI, Vec::new(), RequestBody::Form(form))
        },
        ApiCall::ExchangeCode { code } => {
            let form = vec![
                pair("grant_type", "authorization_code"),
                pair("code", code.as_str()),
                pair("redirect_uri", CALLBACKURL),
            ];
            request(HttpMethod::Post, TOKENAPI, Vec::new(), RequestBody::Form(form))
        },
    };
    assert(r@ =~= request_spec(*call));
    r
}


/// A lower-case hexadecimal digit.
pub open spec fn hex_digit(d: int) -> char {
    if d < 10 {
        crate::text::digit_char(d)
    } else if d == 10 {
        'a'
    } else if d == 11 {
        'b'
    } else if d == 12 {
        'c'
    } else if d == 13 {
        'd'
    } else if d == 14 {
        'e'
    } else {
        'f'
    }
}

/// How serde_json writes one character inside a JSON string: `"` and `\`
/// get a backslash; backspace, tab, line feed, form feed and carriage return
/// become `\b \t \n \f \r`; the other characters below U+0020 become
/// `\u00xx` with lower-case hex; every other character is copied.
pub open spec fn json_escape_char(c: char) -> Seq<char> {
    let u = c as u32;
    if c == '"' {
        seq!['\\', '"']
    } else if c == '\\' {
        seq!['\\', '\\']
    } else if u == 0x08 {
        seq!['\\', 'b']
    } else if u == 0x09 {
        seq!['\\', 't']
    } else if u == 0x0a {
        seq!['\\', 'n']
    } else if u == 0x0c {
        seq!['\\', 'f']
    } else if u == 0x0d {
        seq!['\\', 'r']
    } else if u < 0x20 {
        seq!['\\', 'u', '0', '0', hex_digit((u / 16) as int), hex_digit((u % 16) as int)]
    } else {
        seq![c]
    }
}

/// The characters of `s`, each written as in a JSON string.
pub open spec fn json_escape(s: Seq<char>) -> Seq<char>
    decreases s.len(),
{
    if s.len() == 0 {
        Seq::empty()
    } else {
        json_escape(s.drop_last()) + json_escape_char(s.last())
    }
}

/// The JSON string literal for `s`: its escaped characters in double quotes.
pub open spec fn json_string_literal(s: Seq<char>) -> Seq<char> {
    seq!['"'] + json_escape(s) + seq!['"']
}

/// Calls `serde_json::to_string` on a `&str`. Claims that it succeeds and
/// gives the JSON string literal of the argument: serde_json writes the
/// escaped string into a `Vec<u8>`, and writing to a `Vec` never fails.
#[verifier::external_body]
fn json_encode_str(s: &str) -> (r: Result<String, String>)
    ensures
        r is Ok,
        r matches Ok(t) ==> t@ == json_string_literal(s@),
{
    match serde_json::to_string(s) {
        Ok(t) => Ok(t),
        Err(e) => Err(e.to_string()),
    }
}

/// The body that starts playback of exactly one track: `{"uris":[uri]}`.
pub open spec fn uris_body(track_uri: Seq<char>) -> Seq<char> {
    "{\"uris\":["@ + json_string_literal(track_uri) + "]}"@
}

/// The request that plays one track directly (on the given device, if
/// any); it replaces the context that was playing.
pub fn play_track_request(track_uri: &str, device_id: Option<String>) -> (r: ApiRequest)
    ensures
        r@ == (ApiRequestView {
            method: HttpMethod::Put,
            url: PLAYER_PLAY@,
            query: device_query(device_id),
            body: BodyView::Json(uris_body(track_uri@)),
        }),
{
    let lit = json_encode_str(track_uri).unwrap();
    let mut body = String::from_str("{\"uris\":[");
    body.append(lit.as_str());
    body.append("]}");
    let mut q = Vec::new();
    match &device_id {
        Some(id) => q.push(pair("device_id", id.as_str())),
        None => {},
    }
    let r = request(HttpMethod::Put, PLAYER_PLAY, q, RequestBody::Json(body));
    assert(r@ =~= (ApiRequestView {
        method: HttpMethod::Put,
        url: PLAYER_PLAY@,
        query: device_query(device_id),
        body: BodyView::Json(uris_body(track_uri@)),
    }));
    r
}

/// How a response status is handled.
#[derive(Clone, Copy, Debug, PartialEq, Eq)]
pub enum StatusClass {
    /// Not 2xx: the request failed.
    Failure,
    /// 204: success without content.
    NoContent,
    /// Any other 2xx.
    Content,
}

pub open spec fn status_class(status: u16) -> StatusClass {
    if status < 200 || status >= 300 {
        StatusClass::Failure
    } else if status == 204 {
        StatusClass::NoContent
    } else {
        StatusClass::Content
    }
}

/// A status is a failure exactly when it is not 2xx; of the 2xx statuses,
/// exactly 204 carries no content.
pub proof fn lemma_status_classes(status: u16)
    ensures
        status_class(status) == StatusClass::Failure <==> !(200 <= status <= 299),
        status_class(status) == StatusClass::NoContent <==> status == 204,
        status_class(status) == StatusClass::Content <==> (200 <= status <= 299 && status != 204),
{
}

/// Sorts a response status: failure unless 2xx; 204 means no content.
pub fn classify_status(status: u16) -> (r: StatusClass)
    ensures
        r == status_class(status),
{
    if status < 200 || status >= 300 {
        StatusClass::Failure
    } else if status == 204 {
        StatusClass::NoContent
    } else {
        StatusClass::Content
    }
}

/// What a successful reply to a playback query holds.
#[derive(Clone, Copy, Debug, PartialEq, Eq)]
pub enum PlaybackReply {
    /// Nothing is playing: the reply is 204 or its body is blank.
    NoPlayback,
    /// The body describes the playback and is to be parsed.
    Playback,
}

pub open spec fn playback_reply_spec(status: u16, body: Seq<char>) -> PlaybackReply {
    if status == 204 || is_blank_seq(body) {
        PlaybackReply::NoPlayback
    } else {
        PlaybackReply::Playback
    }
}

/// Reads a successful reply to a playback query: 204 (no content) or a
/// blank body means nothing is playing.
pub fn playback_reply(status: u16, body: &str) -> (r: PlaybackReply)
    ensures
        r == playback_reply_spec(status, body@),
{
    if status == 204 || is_blank(body) {
        PlaybackReply::NoPlayback
    } else {
        PlaybackReply::Playback
    }
}

/// The first active device, if any.
pub open spec fn first_active(devices: Seq<Device>) -> Option<Device>
    decreases devices.len(),
{
    if devices.len() == 0 {
        None
    } else if devices[0].is_active {
        Some(devices[0])
    } else {
        first_active(devices.drop_first())
    }
}

/// The device that playback is sent to: the active one, or else the first
/// one listed.
pub open spec fn preferred_device(devices: Seq<Device>) -> Option<Device> {
    match first_active(devices) {
        Some(d) => Some(d),
        None => if devices.len() > 0 {
            Some(devices[0])
        } else {
            None
        },
    }
}

/// When some device is active, playback goes to an active device.
pub proof fn lemma_active_device_preferred(devices: Seq<Device>)
    requires
        exists|i: int| 0 <= i < devices.len() && #[trigger] devices[i].is_active,
    ensures
        preferred_device(devices) matches Some(d) && d.is_active,
{
    lemma_first_active_is_active(devices);
}

proof fn lemma_first_active_is_active(devices: Seq<Device>)
    requires
        exists|i: int| 0 <= i < devices.len() && #[trigger] devices[i].is_active,
    ensures
        first_active(devices) matches Some(d) && d.is_active,
    decreases devices.len(),
{
    if !devices[0].is_active {
        let i = choose|i: int| 0 <= i < devices.len() && #[trigger] devices[i].is_active;
        assert(devices.drop_first()[i - 1].is_active);
        lemma_first_active_is_active(devices.drop_first());
    }
}

/// Which device playback goes to, over any list of devices: none when the
/// list is empty; the first active device when one is active; otherwise the
/// first device listed.
pub proof fn lemma_device_choice(devices: Seq<Device>)
    ensures
        devices.len() == 0 ==> preferred_device(devices) is None,
        devices.len() > 0 && (forall|i: int| 0 <= i < devices.len() ==> !#[trigger] devices[i].is_active)
            ==> preferred_device(devices) == Some(devices[0]),
        forall|k: int|
            0 <= k < devices.len() && #[trigger] devices[k].is_active && (forall|j: int|
                0 <= j < k ==> !#[trigger] devices[j].is_active) ==> preferred_device(devices)
                == Some(devices[k]),
{
    if forall|i: int| 0 <= i < devices.len() ==> !#[trigger] devices[i].is_active {
        lemma_first_active_none(devices);
    }
    assert forall|k: int|
        0 <= k < devices.len() && #[trigger] devices[k].is_active && (forall|j: int|
            0 <= j < k ==> !#[trigger] devices[j].is_active) implies preferred_device(devices)
        == Some(devices[k]) by {
        lemma_first_active_at(devices, k);
    }
}

proof fn lemma_first_active_none(devices: Seq<Device>)
    requires
        forall|i: int| 0 <= i < devices.len() ==> !#[trigger] devices[i].is_active,
    ensures
        first_active(devices) is None,
    decreases devices.len(),
{
    if devices.len() > 0 {
        assert forall|i: int| 0 <= i < devices.drop_first().len() implies !#[trigger] devices.drop_first()[i].is_active by {
            assert(devices.drop_first()[i] == devices[i + 1]);
        }
        lemma_first_active_none(devices.drop_first());
    }
}

proof fn lemma_first_active_at(devices: Seq<Device>, k: int)
    requires
        0 <= k < devices.len(),
        devices[k].is_active,
        forall|j: int| 0 <= j < k ==> !#[trigger] devices[j].is_active,
    ensures
        first_active(devices) == Some(devices[k]),
    decreases k,
{
    if k > 0 {
        let rest = devices.drop_first();
        assert(rest[k - 1] == devices[k]);
        assert forall|j: int| 0 <= j < k - 1 implies !#[trigger] rest[j].is_active by {
            assert(rest[j] == devices[j + 1]);
        }
        lemma_first_active_at(rest, k - 1);
    }
}

/// The text of an optional string.
pub open spec fn opt_text(o: Option<String>) -> Option<Seq<char>> {
    match o {
        Some(s) => Some(s@),
        None => None,
    }
}

/// The id of the device that playback is sent to: the first active device,
/// or else the first device; `None` when there is none or it has no id.
pub fn playback_device_id(devices: &Vec<Device>) -> (r: Option<String>)
    ensures
        opt_text(r) == (match preferred_device(devices@) {
            Some(d) => opt_text(d.id),
            None => None,
        }),
        devices@.len() == 0 ==> r is None,
        devices@.len() > 0 && (forall|i: int| 0 <= i < devices@.len() ==> !#[trigger] devices@[i].is_active)
            ==> opt_text(r) == opt_text(devices@[0].id),
        forall|k: int|
            0 <= k < devices@.len() && #[trigger] devices@[k].is_active && (forall|j: int|
                0 <= j < k ==> !#[trigger] devices@[j].is_active) ==> opt_text(r) == opt_text(
                devices@[k].id,
            ),
{
    proof {
        lemma_device_choice(devices@);
    }
    let n = devices.len();
    let mut i: usize = 0;
    assert(devices@.subrange(0, n as int) =~= devices@);
    while i < n && !devices[i].is_active
        invariant
            n == devices@.len(),
            i <= n,
            first_active(devices@) == first_active(devices@.subrange(i as int, n as int)),
        decreases n - i,
    {
        assert(devices@.subrange(i as int, n as int).drop_first() =~= devices@.subrange(i + 1, n as int));
        i = i + 1;
    }
    let k: usize = if i < n {
        assert(devices@.subrange(i as int, n as int)[0] == devices@[i as int]);
        i
    } else {
        assert(devices@.subrange(n as int, n as int) =~= Seq::<Device>::empty());
        if n == 0 {
            return None;
        }
        0
    };
    match &devices[k].id {
        Some(id) => Some(id.clone()),
        None => None,
    }
}

/// The serialization that `reqwest::Url::parse(base)` followed by
/// `query_pairs_mut().append_pair(k, v)` for each pair gives; `None` when the
/// base does not parse.
pub uninterp spec fn url_with_query(base: Seq<char>, pairs: Seq<(Seq<char>, Seq<char>)>) -> Option<Seq<char>>;

/// Calls `reqwest::Url::parse` on `base`, appends each pair with
/// `query_pairs_mut().append_pair`, and gives `Url::as_str`. Claims that the
/// outcome is the named one; a parse error carries its text, of which
/// nothing is claimed.
#[verifier::external_body]
fn append_query_pairs(base: &str, pairs: &Vec<(String, String)>) -> (r: Result<String, String>)
    ensures
        r is Ok <==> url_with_query(base@, pairs_view(pairs@)) is Some,
        r matches Ok(u) ==> url_with_query(base@, pairs_view(pairs@)) == Some(u@),
{
    match reqwest::Url::parse(base) {
        Ok(mut url) => {
            {
                let mut query = url.query_pairs_mut();
                for (k, v) in pairs.iter() {
                    query.append_pair(k, v);
                }
            }
            Ok(url.as_str().to_string())
        },
        Err(e) => Err(e.to_string()),
    }
}

/// The pairs of the authorization URL.
pub open spec fn authorize_pairs(client_id: Seq<char>) -> Seq<(Seq<char>, Seq<char>)> {
    seq![
        ("client_id"@, client_id),
        ("response_type"@, "code"@),
        ("redirect_uri"@, CALLBACKURL@),
        ("scope"@, SCOPES@),
    ]
}

/// Both token requests, the code exchange and the refresh, are POSTs to the
/// accounts service's token endpoint, not to the authorization page.
pub proof fn lemma_token_requests_go_to_token_endpoint(code: String, refresh_token: String)
    ensures
        request_spec(ApiCall::ExchangeCode { code }).url == "https://accounts.spotify.com/api/token"@,
        request_spec(ApiCall::ExchangeCode { code }).method == HttpMethod::Post,
        request_spec(ApiCall::RefreshToken { refresh_token }).url == "https://accounts.spotify.com/api/token"@,
        request_spec(ApiCall::RefreshToken { refresh_token }).method == HttpMethod::Post,
        request_spec(ApiCall::ExchangeCode { code }).url == request_spec(
            ApiCall::RefreshToken { refresh_token },
        ).url,
{
}

/// The code exchange names the same redirect address as the authorization
/// URL, as Spotify demands of the two.
pub proof fn lemma_redirect_uri_matches(client_id: Seq<char>, code: String)
    ensures
        authorize_pairs(client_id)[2] == ("redirect_uri"@, CALLBACKURL@),
        request_spec(ApiCall::ExchangeCode { code }).body matches BodyView::Form(f) && f[2]
            == authorize_pairs(client_id)[2],
{
}

/// The URL that the user opens to grant the client access.
pub fn authorize_url(client_id: &str) -> (r: Result<String, SpotifyError>)
    ensures
        url_with_query(AUTHORIZE@, authorize_pairs(client_id@)) matches Some(u) ==> (r matches Ok(s)
            && s@ == u),
        url_with_query(AUTHORIZE@, authorize_pairs(client_id@)) is None ==> r is Err && (r matches Err(e) && e is Other),
{
    let pairs = vec![
        pair("client_id", client_id),
        pair("response_type", "code"),
        pair("redirect_uri", CALLBACKURL),
        pair("scope", SCOPES),
    ];
    assert(pairs_view(pairs@) =~= authorize_pairs(client_id@));
    match append_query_pairs(AUTHORIZE, &pairs) {
        Ok(u) => Ok(u),
        Err(msg) => Err(SpotifyError::Other(msg)),
    }
}

/// The query pairs that `reqwest::Url::parse(url)` and `Url::query_pairs`
/// decode; `None` when the URL does not parse.
pub uninterp spec fn url_query_pairs(url: Seq<char>) -> Option<Seq<(Seq<char>, Seq<char>)>>;

/// Calls `reqwest::Url::parse` and collects `Url::query_pairs` as owned
/// strings. Claims that the outcome is the named one.
#[verifier::external_body]
fn query_pairs_of(url: &str) -> (r: Option<Vec<(String, String)>>)
    ensures
        (match r {
            Some(v) => Some(pairs_view(v@)),
            None => None,
        }) == url_query_pairs(url@),
{
    match reqwest::Url::parse(url) {
        Ok(u) => {
            let mut v = Vec::new();
            for (k, val) in u.query_pairs() {
                v.push((k.into_owned(), val.into_owned()));
            }
            Some(v)
        },
        Err(_) => None,
    }
}

/// The page shown in the browser after a successful login.
pub const LOGIN_SUCCESS_REPLY: &'static str = "Giriş başarılı! Botu artık kullanabilirsiniz. Bu sekmeyi kapatabilirsiniz.";

/// The page shown in the browser when the callback carries no code.
pub const LOGIN_FAILURE_REPLY: &'static str = "Giriş başarısız. Botun sahibi ile konuşun";

/// What the callback listener does with the request it received.
#[derive(Clone, Debug, PartialEq, Eq)]
pub struct CallbackOutcome {
    /// The authorization code, if the request carried one.
    pub code: Option<String>,
    /// The page to answer with; `None` when the request is dropped unanswered.
    pub reply: Option<String>,
}

/// The value of the first pair named `key`, if any.
pub open spec fn first_value(pairs: Seq<(Seq<char>, Seq<char>)>, key: Seq<char>) -> Option<Seq<char>>
    decreases pairs.len(),
{
    if pairs.len() == 0 {
        None
    } else if pairs[0].0 == key {
        Some(pairs[0].1)
    } else {
        first_value(pairs.drop_first(), key)
    }
}

fn find_code(pairs: &Vec<(String, String)>) -> (r: Option<String>)
    ensures
        opt_text(r) == first_value(pairs_view(pairs@), "code"@),
{
    let key = String::from_str("code");
    let n = pairs.len();
    let ghost pv = pairs_view(pairs@);
    assert(pv.subrange(0, n as int) =~= pv);
    for i in 0..n
        invariant
            n == pairs@.len(),
            key@ == "code"@,
            pv == pairs_view(pairs@),
            first_value(pv, "code"@) == first_value(pv.subrange(i as int, n as int), "code"@),
    {
        assert(pv.subrange(i as int, n as int).drop_first() =~= pv.subrange(i + 1, n as int));
        assert(pv.subrange(i as int, n as int)[0] == (pairs@[i as int].0@, pairs@[i as int].1@));
        if pairs[i].0 == key {
            return Some(pairs[i].1.clone());
        }
    }
    assert(pv.subrange(n as int, n as int) =~= Seq::<(Seq<char>, Seq<char>)>::empty());
    None
}

/// The full URL of a request that reached the callback listener.
pub open spec fn callback_url(request_path: Seq<char>) -> Seq<char> {
    CALLBACK_ORIGIN@ + request_path
}

/// Reads the request that reached the callback listener: a URL that does
/// not parse leaves the request unanswered and gives no code; otherwise the
/// first `code` query parameter is the code and a success page is shown, and
/// without one a failure page is shown.
pub fn callback_outcome(request_path: &str) -> (r: CallbackOutcome)
    ensures
        url_query_pairs(callback_url(request_path@)) is None ==> r.code is None && r.reply is None,
        url_query_pairs(callback_url(request_path@)) matches Some(p) ==> (opt_text(r.code)
            == first_value(p, "code"@) && (if first_value(p, "code"@) is Some {
            opt_text(r.reply) == Some(LOGIN_SUCCESS_REPLY@)
        } else {
            opt_text(r.reply) == Some(LOGIN_FAILURE_REPLY@)
        })),
{
    let mut url = String::from_str(CALLBACK_ORIGIN);
    url.append(request_path);
    match query_pairs_of(url.as_str()) {
        None => CallbackOutcome { code: None, reply: None },
        Some(pairs) => match find_code(&pairs) {
            Some(code) => CallbackOutcome {
                code: Some(code),
                reply: Some(String::from_str(LOGIN_SUCCESS_REPLY)),
            },
            None => CallbackOutcome { code: None, reply: Some(String::from_str(LOGIN_FAILURE_REPLY)) },
        },
    }
}

/// The authorization code the login goes on with, or the error when the
/// browser step gave none.
pub fn authorization_code(code: Option<String>) -> (r: Result<String, SpotifyError>)
    ensures
        code matches Some(c) ==> r == Ok::<String, SpotifyError>(c),
        code is None ==> (r matches Err(SpotifyError::Other(m)) && m@ == "Auth kodunu alırken bir sorun yaşandı"@),
{
    match code {
        Some(c) => Ok(c),
        None => Err(SpotifyError::Other(String::from_str("Auth kodunu alırken bir sorun yaşandı"))),
    }
}

} // verus!
