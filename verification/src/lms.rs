//! The Logitech Media Server: the requests it takes and the state it reports.
use crate::digest::{hex_encode, sha1_digest};
use crate::http::parse_uri;
use crate::json::{
    json_array, json_member, json_null, json_number, json_object, json_string, json_to_string,
};
use serde_json::Value;
use vstd::prelude::*;
use vstd::string::*;

verus! {

/// What the server reports of its player.
pub enum LMSEvent {
    Stopped,
    Playing { position_ms: u32, play_id: String },
    Paused { position_ms: u32, play_id: String },
}

/// An [`LMSEvent`] with its text as a sequence of characters.
pub enum LMSEventView {
    Stopped,
    Playing { position_ms: u32, play_id: Seq<char> },
    Paused { position_ms: u32, play_id: Seq<char> },
}

impl View for LMSEvent {
    type V = LMSEventView;

    open spec fn view(&self) -> LMSEventView {
        match *self {
            LMSEvent::Stopped => LMSEventView::Stopped,
            LMSEvent::Playing { position_ms, play_id } => LMSEventView::Playing {
                position_ms,
                play_id: play_id@,
            },
            LMSEvent::Paused { position_ms, play_id } => LMSEventView::Paused {
                position_ms,
                play_id: play_id@,
            },
        }
    }
}

/// The characters of a text that may be missing.
pub open spec fn text_of(text: Option<String>) -> Option<Seq<char>> {
    match text {
        Some(text) => Some(text@),
        None => None,
    }
}

/// A request to be posted to the server.
pub struct PostRequest {
    pub uri: hyper::Uri,
    /// The header `Authorization`.
    pub authorization: Option<String>,
    /// The header `X-Scanner`.
    pub scanner: String,
    /// The header `Content-Type`.
    pub content_type: String,
    /// The header `Content-Length`.
    pub content_length: u64,
    pub body: String,
}

/// A [`PostRequest`] with its texts as sequences of characters.
#[verifier::ext_equal]
pub struct PostRequestView {
    pub uri: Seq<char>,
    pub authorization: Option<Seq<char>>,
    pub scanner: Seq<char>,
    pub content_type: Seq<char>,
    pub content_length: nat,
    pub body: Seq<char>,
}

impl View for PostRequest {
    type V = PostRequestView;

    open spec fn view(&self) -> PostRequestView {
        PostRequestView {
            uri: crate::http::uri_text(self.uri),
            authorization: text_of(self.authorization),
            scanner: self.scanner@,
            content_type: self.content_type@,
            content_length: self.content_length as nat,
            body: self.body@,
        }
    }
}

/// The view of a request that may be missing.
pub open spec fn request_of(request: Option<PostRequest>) -> Option<PostRequestView> {
    match request {
        Some(request) => Some(request@),
        None => None,
    }
}

/// The request that posts `body` to `url`.
pub open spec fn post_view(
    url: Seq<char>,
    auth: Option<Seq<char>>,
    body: Seq<char>,
) -> PostRequestView {
    PostRequestView {
        uri: crate::http::with_path(url),
        authorization: match auth {
            Some(auth) => Some("Basic "@ + auth),
            None => None,
        },
        scanner: "1"@,
        content_type: "application/json"@,
        content_length: vstd::utf8::encode_utf8(body).len(),
        body,
    }
}

/// The address of the server's JSON interface, on `host` or on this machine.
pub open spec fn endpoint(host: Option<Seq<char>>) -> Seq<char> {
    "http://"@ + (match host {
        Some(host) => host,
        None => "localhost:9000"@,
    }) + "/jsonrpc.js"@
}

/// The body of a request that hands `command` to the player `mac`.
pub open spec fn command_body(mac: Seq<char>, command: Seq<char>) -> Seq<char> {
    "{\"id\": 1,\"method\":\"slim.request\",\"params\":[\""@ + mac + "\","@ + command + "]}"@
}

/// The body of a request for the state of the player `mac`.
pub open spec fn status_body(mac: Option<Seq<char>>) -> Seq<char> {
    "{\"id\":1,\"method\":\"slim.request\",\"params\":["@ + (match mac {
        Some(mac) => crate::json::quoted(mac),
        None => "null"@,
    }) + ",[\"status\",\"-\",1,\"tags:gABbehldiqtyrSuoKLNu\"]]}"@
}


/// The fixed parts of [`status_body`], piece by piece.
proof fn lemma_status_literals()
    ensures
        "{\"id\":1,\"method\":\"slim.request\",\"params\":["@ == seq!['{'] + (crate::json::quoted(
            "id"@,
        ) + seq![':'] + seq!['1']) + seq![','] + (crate::json::quoted("method"@) + seq![':']
            + crate::json::quoted("slim.request"@)) + seq![','] + (crate::json::quoted("params"@)
            + seq![':'] + seq!['[']),
        ",[\"status\",\"-\",1,\"tags:gABbehldiqtyrSuoKLNu\"]]}"@ == seq![','] + (seq!['['] + (
        crate::json::quoted("status"@) + seq![','] + crate::json::quoted("-"@) + seq![',']
            + seq!['1'] + seq![','] + crate::json::quoted("tags:gABbehldiqtyrSuoKLNu"@))
            + seq![']']) + seq![']'] + seq!['}'],
{
    reveal_strlit("{\"id\":1,\"method\":\"slim.request\",\"params\":[");
    reveal_strlit(",[\"status\",\"-\",1,\"tags:gABbehldiqtyrSuoKLNu\"]]}");
    reveal_strlit("id");
    reveal_strlit("method");
    reveal_strlit("slim.request");
    reveal_strlit("params");
    reveal_strlit("status");
    reveal_strlit("-");
    reveal_strlit("tags:gABbehldiqtyrSuoKLNu");
    crate::json::lemma_quoted_plain("id"@);
    crate::json::lemma_quoted_plain("method"@);
    crate::json::lemma_quoted_plain("slim.request"@);
    crate::json::lemma_quoted_plain("params"@);
    crate::json::lemma_quoted_plain("status"@);
    crate::json::lemma_quoted_plain("-"@);
    crate::json::lemma_quoted_plain("tags:gABbehldiqtyrSuoKLNu"@);
}

/// The body of a request for the state of the player `mac`.
fn status_query(mac: &Option<String>) -> (body: String)
    ensures
        body@ == status_body(text_of(*mac)),
{
    let player = match mac {
        Some(mac) => json_string(mac.as_str()),
        None => json_null(),
    };
    let mut query: Vec<Value> = Vec::new();
    query.push(json_string("status"));
    query.push(json_string("-"));
    query.push(json_number(1));
    query.push(json_string("tags:gABbehldiqtyrSuoKLNu"));
    let mut params: Vec<Value> = Vec::new();
    params.push(player);
    params.push(json_array(query));
    let mut entries: Vec<(String, Value)> = Vec::new();
    entries.push(("id".to_owned(), json_number(1)));
    entries.push(("method".to_owned(), json_string("slim.request")));
    entries.push(("params".to_owned(), json_array(params)));
    proof {
        reveal_strlit("id");
        reveal_strlit("method");
        reveal_strlit("params");
        reveal_with_fuel(crate::json::comma_separated, 4);
        lemma_status_literals();
    }
    json_to_string(&json_object(entries))
}

/// The request that posts `body` to `base_url`.
fn post(base_url: &String, auth: &Option<String>, body: String) -> (request: PostRequest)
    requires
        crate::http::is_http_address(base_url@),
    ensures
        request@ == post_view(base_url@, text_of(*auth), body@),
{
    let uri = parse_uri(base_url.as_str()).unwrap();
    let authorization = match auth {
        Some(auth) => {
            let mut text = "Basic ".to_owned();
            text.append(auth.as_str());
            Some(text)
        },
        None => None,
    };
    let content_length: u64 = body.as_str().as_bytes().len() as u64;
    PostRequest {
        uri,
        authorization,
        scanner: "1".to_owned(),
        content_type: "application/json".to_owned(),
        content_length,
        body,
    }
}

/// A server, the player on it that is controlled, and the credentials for it.
pub struct LMS {
    base_url: Option<String>,
    player_mac: Option<String>,
    auth: Option<String>,
}

/// An [`LMS`] with its texts as sequences of characters.
#[verifier::ext_equal]
pub struct LMSView {
    pub base_url: Option<Seq<char>>,
    pub player_mac: Option<Seq<char>>,
    pub auth: Option<Seq<char>>,
}

impl LMSView {
    /// Both the server and the player are known.
    pub open spec fn configured(self) -> bool {
        self.base_url is Some && self.player_mac is Some
    }

    /// The server's address, where it is known, is one that can be posted to.
    pub open spec fn addressable(self) -> bool {
        self.base_url matches Some(url) ==> crate::http::is_http_address(url)
    }

    /// The request that hands `command` to the player.
    pub open spec fn command_request(self, command: Seq<char>) -> Option<PostRequestView> {
        match (self.base_url, self.player_mac) {
            (Some(url), Some(mac)) => Some(post_view(url, self.auth, command_body(mac, command))),
            _ => None,
        }
    }

    /// The request for the player's state.
    pub open spec fn status_request(self) -> Option<PostRequestView> {
        match self.base_url {
            Some(url) => Some(post_view(url, self.auth, status_body(self.player_mac))),
            None => None,
        }
    }
}

impl View for LMS {
    type V = LMSView;

    closed spec fn view(&self) -> LMSView {
        LMSView {
            base_url: text_of(self.base_url),
            player_mac: text_of(self.player_mac),
            auth: text_of(self.auth),
        }
    }
}

impl Clone for LMS {
    fn clone(&self) -> (copy: LMS)
        ensures
            copy@ == self@,
    {
        proof {
            use_type_invariant(self);
        }
        LMS {
            base_url: self.base_url.clone(),
            player_mac: self.player_mac.clone(),
            auth: self.auth.clone(),
        }
    }
}

impl LMS {
    /// The server speaks HTTP.
    #[verifier::type_invariant]
    spec fn inv(self) -> bool {
        self.base_url matches Some(url) ==> crate::http::has_http_scheme(url@)
    }

    /// A server on the host `base_url`, by default on port 9000 of this machine.
    pub fn new(
        base_url: Option<String>,
        player_mac: Option<String>,
        auth: Option<String>,
    ) -> (lms: LMS)
        ensures
            lms@ == (LMSView {
                base_url: Some(endpoint(text_of(base_url))),
                player_mac: text_of(player_mac),
                auth: text_of(auth),
            }),
    {
        let mut url = "http://".to_owned();
        match base_url {
            Some(host) => url.append(host.as_str()),
            None => url.append("localhost:9000"),
        }
        url.append("/jsonrpc.js");
        proof {
            reveal_strlit("http://");
            assert(url@.take(7) =~= "http://"@);
        }
        LMS { base_url: Some(url), player_mac, auth }
    }

    /// Whether commands can be sent.
    pub fn is_configured(&self) -> (configured: bool)
        ensures
            configured == self@.configured(),
    {
        if self.base_url.is_some() {
            if self.player_mac.is_some() {
                return true;
            }
        }
        false
    }

    /// Whether requests can be posted to the server's address.
    pub fn is_addressable(&self) -> (addressable: bool)
        ensures
            addressable == self@.addressable(),
    {
        proof {
            use_type_invariant(self);
        }
        match &self.base_url {
            Some(base_url) => parse_uri(base_url.as_str()).is_ok(),
            None => true,
        }
    }

    /// The request that hands `command`, a JSON array, to the player. Without a
    /// player there is nothing to send.
    pub fn send_command(&self, command: &str) -> (request: Option<PostRequest>)
        requires
            self@.configured() ==> self@.addressable(),
        ensures
            request_of(request) == self@.command_request(command@),
    {
        if !self.is_configured() {
            return None;
        }
        if let Some(base_url) = &self.base_url {
            if let Some(player_mac) = &self.player_mac {
                let mut json =
                    "{\"id\": 1,\"method\":\"slim.request\",\"params\":[\"".to_owned();
                json.append(player_mac.as_str());
                json.append("\",");
                json.append(command);
                json.append("]}");
                return Some(post(base_url, &self.auth, json));
            }
        }
        None
    }

    /// The request for the player's state.
    pub fn poll_state(&mut self) -> (request: Option<PostRequest>)
        requires
            old(self)@.addressable(),
        ensures
            request_of(request) == old(self)@.status_request(),
            *final(self) == *old(self),
    {
        if let Some(base_url) = &self.base_url {
            let body = status_query(&self.player_mac);
            return Some(post(base_url, &self.auth, body));
        }
        None
    }
}

/// The answer to a request for the player's state.
pub struct PlayerStatus {
    pub result: PlayerStatusResult,
    pub id: u32,
    pub method: String,
}

/// The state of the player.
pub struct PlayerStatusResult {
    pub can_seek: bool,
    pub current_title: String,
    pub digital_volume_control: u32,
    /// `play`, `stop` or `pause`.
    pub mode: String,
    pub mixer_volume: u32,
    pub player_connected: bool,
    pub playlist_cur_index: String,
    pub playlist_mode: String,
    pub playlist_repeat: bool,
    pub playlist_shuffle: bool,
    /// The number of tracks in the playlist.
    pub playlist_tracks: u32,
    pub power: u32,
    pub remote: bool,
    /// What the server knows of the track.
    pub remote_meta: Value,
    pub seq_no: String,
    pub signalstrength: u32,
    /// How far the track has been played, in milliseconds.
    pub position_ms: u32,
}

/// The view of an event that may be missing.
pub open spec fn event_of(event: Option<LMSEvent>) -> Option<LMSEventView> {
    match event {
        Some(event) => Some(event@),
        None => None,
    }
}

/// What a play identifier is made of. The three texts are JSON.
pub open spec fn play_id_source(
    artist: Seq<char>,
    album: Seq<char>,
    title: Seq<char>,
) -> Seq<char> {
    artist + "-"@ + album + "-"@ + title
}

/// The identifier of a track that is known by its artist, album and title.
pub open spec fn play_id(artist: Seq<char>, album: Seq<char>, title: Seq<char>) -> Seq<char> {
    crate::digest::hex_text(
        crate::digest::sha1_of(vstd::utf8::encode_utf8(play_id_source(artist, album, title))),
    )
}

/// Whether `text` has the form of a play identifier.
pub open spec fn is_play_id(text: Seq<char>) -> bool {
    &&& text.len() == 40
    &&& forall|i: int|
        0 <= i < text.len() ==> {
            ||| '0' <= #[trigger] text[i] <= '9'
            ||| 'a' <= text[i] <= 'f'
        }
}

/// Whether the play identifier of `event`, where it has one, has the form of one.
pub open spec fn has_play_id(event: Option<LMSEventView>) -> bool {
    match event {
        Some(LMSEventView::Playing { play_id, .. }) => is_play_id(play_id),
        Some(LMSEventView::Paused { play_id, .. }) => is_play_id(play_id),
        _ => true,
    }
}

/// What a player in `mode` is reported to do.
pub open spec fn mode_event(
    mode: Seq<char>,
    position_ms: u32,
    play_id: Seq<char>,
) -> Option<LMSEventView> {
    if mode == "play"@ {
        Some(LMSEventView::Playing { position_ms, play_id })
    } else if mode == "pause"@ {
        Some(LMSEventView::Paused { position_ms, play_id })
    } else if mode == "stop"@ {
        Some(LMSEventView::Stopped)
    } else {
        None
    }
}

/// What is reported of a player in `mode`, whose track has the given artist,
/// album and title, in JSON. A track without a title is not reported.
pub open spec fn track_event(
    mode: Seq<char>,
    position_ms: u32,
    artist: Seq<char>,
    album: Seq<char>,
    title: Seq<char>,
) -> Option<LMSEventView> {
    if title == "null"@ {
        None
    } else {
        mode_event(mode, position_ms, play_id(artist, album, title))
    }
}

/// The server does not know Spotify's identifier of the track, so one is made up
/// from what it does know.
pub fn make_play_id(artist: &String, album: &String, title: &String) -> (id: String)
    ensures
        id@ == play_id(artist@, album@, title@),
        is_play_id(id@),
{
    let mut source = artist.clone();
    source.append("-");
    source.append(album.as_str());
    source.append("-");
    source.append(title.as_str());
    hex_encode(&sha1_digest(source.as_str().as_bytes()))
}

/// What a player in `mode` is reported to do.
pub fn event_of_mode(mode: &String, position_ms: u32, play_id: String) -> (event: Option<LMSEvent>)
    ensures
        event_of(event) == mode_event(mode@, position_ms, play_id@),
{
    if *mode == "play".to_owned() {
        Some(LMSEvent::Playing { position_ms, play_id })
    } else if *mode == "pause".to_owned() {
        Some(LMSEvent::Paused { position_ms, play_id })
    } else if *mode == "stop".to_owned() {
        Some(LMSEvent::Stopped)
    } else {
        None
    }
}

/// What is reported of a track that is known by its artist, album and title.
pub fn event_of_track(
    mode: &String,
    position_ms: u32,
    artist: &String,
    album: &String,
    title: &String,
) -> (event: Option<LMSEvent>)
    ensures
        event_of(event) == track_event(mode@, position_ms, artist@, album@, title@),
        has_play_id(event_of(event)),
        event matches Some(LMSEvent::Playing { position_ms: position, .. }) ==> position
            == position_ms,
        event matches Some(LMSEvent::Paused { position_ms: position, .. }) ==> position
            == position_ms,
{
    if *title != "null".to_owned() {
        let play_id = make_play_id(artist, album, title);
        event_of_mode(mode, position_ms, play_id)
    } else {
        None
    }
}

impl PlayerStatus {
    /// What is reported of this state.
    pub open spec fn reported(self) -> Option<LMSEventView> {
        let meta = crate::json::json_members(self.result.remote_meta);
        track_event(
            self.result.mode@,
            self.result.position_ms,
            crate::json::member_text(meta, "artist"@),
            crate::json::member_text(meta, "album"@),
            crate::json::member_text(meta, "title"@),
        )
    }

    /// The event that this state stands for.
    pub fn event(&self) -> (event: Option<LMSEvent>)
        ensures
            event_of(event) == self.reported(),
            has_play_id(event_of(event)),
    {
        let meta = &self.result.remote_meta;
        let artist = json_to_string(json_member(meta, "artist"));
        let album = json_to_string(json_member(meta, "album"));
        let title = json_to_string(json_member(meta, "title"));
        event_of_track(&self.result.mode, self.result.position_ms, &artist, &album, &title)
    }
}

/// Why a number is no flag.
pub struct InvalidFlag {
    pub unexpected: u64,
    pub expected: &'static str,
}

/// The server writes flags as the numbers 0 and 1.
pub fn bool_from_int(value: u8) -> (flag: Result<bool, InvalidFlag>)
    ensures
        flag == Ok::<bool, InvalidFlag>(false) <==> value == 0,
        flag == Ok::<bool, InvalidFlag>(true) <==> value == 1,
        flag matches Err(error) ==> error.unexpected == value && error.expected@ == "zero or one"@,
{
    match value {
        0 => Ok(false),
        1 => Ok(true),
        other => Err(InvalidFlag { unexpected: other as u64, expected: "zero or one" }),
    }
}

/// The host and port in `host`, which may hold more.
pub open spec fn host_authority(host: Seq<char>) -> Seq<char> {
    host.take(crate::http::authority_end(host, 0))
}

proof fn lemma_endpoint_authority_end(host: Seq<char>, from: int)
    requires
        0 <= from <= host.len(),
    ensures
        crate::http::authority_end(endpoint(Some(host)), 7 + from) == 7
            + crate::http::authority_end(host, from),
    decreases host.len() - from,
{
    reveal_strlit("http://");
    reveal_strlit("/jsonrpc.js");
    if from < host.len() {
        lemma_endpoint_authority_end(host, from + 1);
    }
}

/// A server on `host` can be asked just if `host` names a host, with either both of
/// `[` and `]` in it or none of them.
pub proof fn law_addressable_hosts(host: Seq<char>)
    ensures
        crate::http::is_http_address(endpoint(Some(host))) <==> {
            &&& host_authority(host).len() > 0
            &&& host_authority(host).contains('[') == host_authority(host).contains(']')
        },
{
    let text = endpoint(Some(host));
    reveal_strlit("http://");
    lemma_endpoint_authority_end(host, 0);
    crate::http::lemma_authority_end_bounds(host, 0);
    assert(text.take(7) =~= "http://"@);
    assert(crate::http::authority(text) =~= host_authority(host));
}

/// A server on a plain host, by name or by number, with a port or without, can
/// always be asked, and is asked at its JSON interface.
pub proof fn law_plain_hosts_are_addressable(host: Seq<char>)
    requires
        host.len() > 0,
        forall|i: int|
            0 <= i < host.len() ==> #[trigger] host[i] != '/' && host[i] != '?' && host[i] != '#'
                && host[i] != '[' && host[i] != ']',
    ensures
        crate::http::is_http_address(endpoint(Some(host))),
        crate::http::with_path(endpoint(Some(host))) == endpoint(Some(host)),
{
    lemma_plain_authority_end(host, 0);
    law_addressable_hosts(host);
    lemma_endpoint_authority_end(host, 0);
    reveal_strlit("/jsonrpc.js");
}

proof fn lemma_plain_authority_end(host: Seq<char>, from: int)
    requires
        0 <= from <= host.len(),
        forall|i: int|
            0 <= i < host.len() ==> #[trigger] host[i] != '/' && host[i] != '?' && host[i] != '#',
    ensures
        crate::http::authority_end(host, from) == host.len(),
    decreases host.len() - from,
{
    if from < host.len() {
        lemma_plain_authority_end(host, from + 1);
    }
}

/// The server on this machine can always be asked.
pub proof fn law_default_host_is_addressable()
    ensures
        crate::http::is_http_address(endpoint(None)),
        crate::http::with_path(endpoint(None)) == endpoint(None),
{
    reveal_strlit("localhost:9000");
    law_plain_hosts_are_addressable("localhost:9000"@);
}

/// A server that was made with a player is configured, and one without is not,
/// whatever else it was made with.
pub proof fn law_configured_with_player(
    host: Option<Seq<char>>,
    mac: Option<Seq<char>>,
    auth: Option<Seq<char>>,
)
    ensures
        (LMSView { base_url: Some(endpoint(host)), player_mac: mac, auth }).configured() <==> mac
            is Some,
{
}

/// A command is posted just if the server is configured. Then the request holds
/// the player and the command, and its length is that of its body.
pub proof fn law_commands_need_configuration(lms: LMSView, command: Seq<char>)
    ensures
        lms.command_request(command) is Some <==> lms.configured(),
        lms.command_request(command) matches Some(request) ==> {
            &&& request.body == command_body(lms.player_mac->0, command)
            &&& request.content_length == vstd::utf8::encode_utf8(request.body).len()
            &&& request.authorization is Some <==> lms.auth is Some
        },
{
}

/// Different commands are never posted with the same body.
pub proof fn law_command_bodies_differ(mac: Seq<char>, a: Seq<char>, b: Seq<char>)
    requires
        command_body(mac, a) == command_body(mac, b),
    ensures
        a == b,
{
    let head = "{\"id\": 1,\"method\":\"slim.request\",\"params\":[\""@ + mac + "\","@;
    let tail = "]}"@;
    assert(command_body(mac, a) == head + a + tail);
    assert(command_body(mac, b) == head + b + tail);
    assert(head + a + tail == head + b + tail);
    assert(a.len() == b.len());
    assert(a =~= (head + a + tail).subrange(head.len() as int, head.len() as int + a.len()));
    assert(b =~= (head + b + tail).subrange(head.len() as int, head.len() as int + b.len()));
}

/// A track without a title is never reported, in whatever mode the player is.
pub proof fn law_no_event_without_title(
    mode: Seq<char>,
    position_ms: u32,
    artist: Seq<char>,
    album: Seq<char>,
)
    ensures
        track_event(mode, position_ms, artist, album, "null"@) is None,
{
}

/// A mode of its own for each event: a player is reported to play, to pause or to
/// have stopped just if that is its mode.
pub proof fn law_event_tells_the_mode(mode: Seq<char>, position_ms: u32, play_id: Seq<char>)
    ensures
        mode_event(mode, position_ms, play_id) == Some(
            LMSEventView::Playing { position_ms, play_id },
        ) <==> mode == "play"@,
        mode_event(mode, position_ms, play_id) == Some(
            LMSEventView::Paused { position_ms, play_id },
        ) <==> mode == "pause"@,
        mode_event(mode, position_ms, play_id) == Some(LMSEventView::Stopped) <==> mode == "stop"@,
{
    reveal_strlit("play");
    reveal_strlit("pause");
    reveal_strlit("stop");
    assert("play"@.len() != "pause"@.len());
    assert("play"@[0] != "stop"@[0] && "pause"@[0] != "stop"@[0]);
}

/// A text that is there has the characters that it has.
pub proof fn law_texts(text: Option<String>)
    ensures
        text is None <==> text_of(text) is None,
        text matches Some(text) ==> text_of(Some(text)) == Some(text@),
{
}

/// The server's address is made of the scheme, the host and the path of its JSON
/// interface, in this order and without anything between them. Without a host it is that
/// of port 9000 of this machine.
pub proof fn law_server_address(host: Seq<char>, url: Seq<char>)
    requires
        url == endpoint(Some(host)),
    ensures
        url.len() == 7 + host.len() + 11,
        url.take(7) == "http://"@,
        url.subrange(7, 7 + host.len() as int) == host,
        url.skip(7 + host.len() as int) == "/jsonrpc.js"@,
        endpoint(None) == endpoint(Some("localhost:9000"@)),
{
    reveal_strlit("http://");
    reveal_strlit("/jsonrpc.js");
    assert(url.take(7) =~= "http://"@);
    assert(url.subrange(7, 7 + host.len() as int) =~= host);
    assert(url.skip(7 + host.len() as int) =~= "/jsonrpc.js"@);
}

/// A server is configured just if its address and its player are known, and requests can
/// be posted to it just if its address, where it is known, is one of HTTP.
pub proof fn law_configured_and_addressable(lms: LMSView)
    ensures
        lms.configured() <==> lms.base_url is Some && lms.player_mac is Some,
        lms.addressable() <==> lms.base_url is None || crate::http::is_http_address(
            lms.base_url->0,
        ),
{
}

/// A command is posted just if both the server and its player are known: to the server's
/// address, with its credentials if there are any, in a body that names the player before
/// the command, of the length that the request says.
pub proof fn law_posted_command(lms: LMSView, command: Seq<char>, request: Option<PostRequest>)
    requires
        request_of(request) == lms.command_request(command),
    ensures
        request is Some <==> lms.base_url is Some && lms.player_mac is Some,
        request matches Some(request) ==> {
            &&& crate::http::uri_text(request.uri) == crate::http::with_path(lms.base_url->0)
            &&& request.body@ == "{\"id\": 1,\"method\":\"slim.request\",\"params\":[\""@
                + lms.player_mac->0 + "\","@ + command + "]}"@
            &&& request.content_length == vstd::utf8::encode_utf8(request.body@).len()
            &&& request.content_type@ == "application/json"@
            &&& request.scanner@ == "1"@
            &&& request.authorization is Some <==> lms.auth is Some
            &&& request.authorization matches Some(authorization) ==> authorization@ == "Basic "@
                + lms.auth->0
        },
{
}

/// The state is asked for just if the server is known, whether or not its player is. The
/// request goes where commands go; its body names the player in JSON, `null` if there is
/// none, and asks for the state and what is known of the current track.
pub proof fn law_posted_status_query(lms: LMSView, request: Option<PostRequest>)
    requires
        request_of(request) == lms.status_request(),
    ensures
        request is Some <==> lms.base_url is Some,
        request matches Some(request) ==> {
            &&& crate::http::uri_text(request.uri) == crate::http::with_path(lms.base_url->0)
            &&& request.body@ == "{\"id\":1,\"method\":\"slim.request\",\"params\":["@ + (
            if lms.player_mac is Some {
                crate::json::quoted(lms.player_mac->0)
            } else {
                "null"@
            }) + ",[\"status\",\"-\",1,\"tags:gABbehldiqtyrSuoKLNu\"]]}"@
            &&& request.content_length == vstd::utf8::encode_utf8(request.body@).len()
            &&& request.content_type@ == "application/json"@
            &&& request.scanner@ == "1"@
            &&& request.authorization is Some <==> lms.auth is Some
            &&& request.authorization matches Some(authorization) ==> authorization@ == "Basic "@
                + lms.auth->0
        },
{
}

/// A command and a query for the state go to the same address, with the same headers but
/// for the length.
pub proof fn law_commands_and_queries_go_one_way(
    lms: LMSView,
    command: Seq<char>,
    posted: PostRequestView,
    query: PostRequestView,
)
    requires
        lms.command_request(command) == Some(posted),
        lms.status_request() == Some(query),
    ensures
        posted.uri == query.uri,
        posted.authorization == query.authorization,
        posted.scanner == query.scanner,
        posted.content_type == query.content_type,
{
}

/// A track is identified by the digest, in hexadecimal, of its artist, album and title,
/// with a hyphen between any two of them.
pub proof fn law_play_id(
    artist: Seq<char>,
    album: Seq<char>,
    title: Seq<char>,
    source: Seq<char>,
)
    requires
        source.len() == artist.len() + 1 + album.len() + 1 + title.len(),
        source.take(artist.len() as int) == artist,
        source[artist.len() as int] == '-',
        source.subrange(artist.len() as int + 1, artist.len() as int + 1 + album.len()) == album,
        source[artist.len() as int + 1 + album.len()] == '-',
        source.skip(artist.len() as int + 1 + album.len() + 1) == title,
    ensures
        play_id(artist, album, title) == crate::digest::hex_text(
            crate::digest::sha1_of(vstd::utf8::encode_utf8(source)),
        ),
{
    reveal_strlit("-");
    let a = artist.len() as int;
    let b = a + 1 + album.len();
    assert forall|i: int| 0 <= i < source.len() implies #[trigger] source[i] == play_id_source(
        artist,
        album,
        title,
    )[i] by {
        if i < a {
            assert(source[i] == source.take(a)[i]);
        } else if a < i < b {
            assert(source[i] == source.subrange(a + 1, b)[i - a - 1]);
        } else if i > b {
            assert(source[i] == source.skip(b + 1)[i - b - 1]);
        }
    }
    assert(source =~= play_id_source(artist, album, title));
}

/// What the server says of a player with a titled track is reported as it is: that it
/// plays or pauses, at the position that was given, with the identifier of that track, or
/// that it has stopped. A track without a title, or any other mode, is not reported.
pub proof fn law_titled_tracks_are_reported(
    mode: Seq<char>,
    position_ms: u32,
    artist: Seq<char>,
    album: Seq<char>,
    title: Seq<char>,
    event: Option<LMSEvent>,
)
    requires
        event_of(event) == track_event(mode, position_ms, artist, album, title),
    ensures
        title == "null"@ ==> event is None,
        title != "null"@ && mode == "play"@ ==> (event matches Some(
            LMSEvent::Playing { position_ms: position, play_id: id },
        ) && position == position_ms && id@ == play_id(artist, album, title)),
        title != "null"@ && mode == "pause"@ ==> (event matches Some(
            LMSEvent::Paused { position_ms: position, play_id: id },
        ) && position == position_ms && id@ == play_id(artist, album, title)),
        title != "null"@ && mode == "stop"@ ==> event == Some(LMSEvent::Stopped),
        mode != "play"@ && mode != "pause"@ && mode != "stop"@ ==> event is None,
{
    law_event_tells_the_mode(mode, position_ms, play_id(artist, album, title));
}

/// What a mode is reported as says just what it was given.
pub proof fn law_modes_are_reported(
    mode: Seq<char>,
    position_ms: u32,
    play_id: Seq<char>,
    event: Option<LMSEvent>,
)
    requires
        event_of(event) == mode_event(mode, position_ms, play_id),
    ensures
        event matches Some(LMSEvent::Playing { position_ms: position, play_id: id }) ==> mode
            == "play"@ && position == position_ms && id@ == play_id,
        event matches Some(LMSEvent::Paused { position_ms: position, play_id: id }) ==> mode
            == "pause"@ && position == position_ms && id@ == play_id,
        event == Some(LMSEvent::Stopped) ==> mode == "stop"@,
        event is None <==> mode != "play"@ && mode != "pause"@ && mode != "stop"@,
{
}

/// The view of an event holds what the event holds.
pub proof fn law_event_views(event: LMSEvent)
    ensures
        event is Stopped <==> event@ is Stopped,
        event matches LMSEvent::Playing { position_ms, play_id } ==> event@
            == (LMSEventView::Playing { position_ms, play_id: play_id@ }),
        event matches LMSEvent::Paused { position_ms, play_id } ==> event@
            == (LMSEventView::Paused { position_ms, play_id: play_id@ }),
{
}

/// The event of a state goes by its mode, its position and three members of what is known
/// of the track, where one that is missing counts as `null`.
pub proof fn law_state_events(status: PlayerStatus, event: Option<LMSEvent>)
    requires
        event_of(event) == status.reported(),
    ensures
        ({
            let meta = crate::json::json_members(status.result.remote_meta);
            let titled = meta.contains_key("title"@) && meta["title"@] != "null"@;
            let artist = if meta.contains_key("artist"@) {
                meta["artist"@]
            } else {
                "null"@
            };
            let album = if meta.contains_key("album"@) {
                meta["album"@]
            } else {
                "null"@
            };
            let id = play_id(artist, album, meta["title"@]);
            &&& !titled ==> event is None
            &&& titled && status.result.mode@ == "play"@ ==> (event matches Some(
                LMSEvent::Playing { position_ms, play_id },
            ) && position_ms == status.result.position_ms && play_id@ == id)
            &&& titled && status.result.mode@ == "pause"@ ==> (event matches Some(
                LMSEvent::Paused { position_ms, play_id },
            ) && position_ms == status.result.position_ms && play_id@ == id)
            &&& titled && status.result.mode@ == "stop"@ ==> event == Some(LMSEvent::Stopped)
            &&& status.result.mode@ != "play"@ && status.result.mode@ != "pause"@
                && status.result.mode@ != "stop"@ ==> event is None
        }),
{
    let meta = crate::json::json_members(status.result.remote_meta);
    law_titled_tracks_are_reported(
        status.result.mode@,
        status.result.position_ms,
        crate::json::member_text(meta, "artist"@),
        crate::json::member_text(meta, "album"@),
        crate::json::member_text(meta, "title"@),
        event,
    );
}

/// Every report of a titled track carries its position: two states that differ in nothing
/// else are reported alike but for that.
pub proof fn law_position_is_reported_as_it_is(
    mode: Seq<char>,
    a: u32,
    b: u32,
    artist: Seq<char>,
    album: Seq<char>,
    title: Seq<char>,
)
    requires
        title != "null"@,
        mode == "play"@ || mode == "pause"@,
    ensures
        track_event(mode, a, artist, album, title) == track_event(mode, b, artist, album, title)
            <==> a == b,
{
}

} // verus!
