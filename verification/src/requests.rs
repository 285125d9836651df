//! The requests that the client sends.

use crate::api::{
    AddTracksRequest, AddTracksView, CreatePlaylistRequest, NewPlaylistView,
};
use crate::text::decimal;
use vstd::prelude::*;
use vstd::string::*;

verus! {

/// The identity of this client at Spotify.
pub const CLIENT_ID: &'static str = "029dec42942148988a90b86aa92756dd";

/// Where Spotify sends the browser after a login.
pub const REDIRECT_URI: &'static str = "http://127.0.0.1:8888/callback";

/// Where tokens are handed out.
pub const TOKEN_URL: &'static str = "https://accounts.spotify.com/api/token";

/// The first page of the user's playlists.
pub const USER_PLAYLISTS_URL: &'static str = "https://api.spotify.com/v1/me/playlists";

/// The method of a request.
#[derive(Debug, Clone, Copy, PartialEq, Eq, Structural)]
pub enum Method {
    Get,
    Post,
    Put,
    Delete,
}

/// The body of a request.
#[derive(Debug, PartialEq, Eq)]
pub enum Body {
    Empty,
    /// Fields, sent as a URL-encoded form.
    Form(Vec<(String, String)>),
    /// Sent as JSON.
    NewPlaylist(CreatePlaylistRequest),
    /// Sent as JSON.
    AddTracks(AddTracksRequest),
}

/// What the reply to a request holds.
#[derive(Debug, Clone, Copy, PartialEq, Eq, Structural)]
pub enum Reply {
    Token,
    RecentlyPlayed,
    UserPlaylists,
    PlaylistItems,
    PlaylistCreated,
    /// The reply is not read.
    Ignored,
}

/// A request.
#[derive(Debug, PartialEq, Eq)]
pub struct HttpRequest {
    pub method: Method,
    pub url: String,
    /// The value of the `Authorization` header.
    pub authorization: Option<String>,
    /// Parameters that are added to the query of the URL.
    pub query: Vec<(String, String)>,
    pub body: Body,
    pub reply: Reply,
    /// Whether the status of the reply is printed.
    pub report_status: bool,
}

/// The body of a request.
pub enum BodyView {
    Empty,
    Form(Seq<(Seq<char>, Seq<char>)>),
    NewPlaylist(NewPlaylistView),
    AddTracks(AddTracksView),
}

/// A request.
pub struct RequestView {
    pub method: Method,
    pub url: Seq<char>,
    pub authorization: Option<Seq<char>>,
    pub query: Seq<(Seq<char>, Seq<char>)>,
    pub body: BodyView,
    pub reply: Reply,
    pub report_status: bool,
}

impl DeepView for Body {
    type V = BodyView;

    open spec fn deep_view(&self) -> BodyView {
        match self {
            Body::Empty => BodyView::Empty,
            Body::Form(fields) => BodyView::Form(fields.deep_view()),
            Body::NewPlaylist(playlist) => BodyView::NewPlaylist(playlist.deep_view()),
            Body::AddTracks(tracks) => BodyView::AddTracks(tracks.deep_view()),
        }
    }
}

impl DeepView for HttpRequest {
    type V = RequestView;

    open spec fn deep_view(&self) -> RequestView {
        RequestView {
            method: self.method,
            url: self.url@,
            authorization: self.authorization.deep_view(),
            query: self.query.deep_view(),
            body: self.body.deep_view(),
            reply: self.reply,
            report_status: self.report_status,
        }
    }
}

/// The `Authorization` header for an access token.
pub open spec fn bearer_view(access_token: Seq<char>) -> Seq<char> {
    "Bearer "@ + access_token
}

/// The request that trades a saved refresh token for an access token.
pub open spec fn token_refresh_view(refresh_token: Seq<char>) -> RequestView {
    RequestView {
        method: Method::Post,
        url: TOKEN_URL@,
        authorization: None,
        query: seq![],
        body: BodyView::Form(
            seq![
                ("grant_type"@, "refresh_token"@),
                ("refresh_token"@, refresh_token),
                ("client_id"@, CLIENT_ID@),
            ],
        ),
        reply: Reply::Token,
        report_status: true,
    }
}

/// The request that trades an authorization code and the code verifier for an access token.
pub open spec fn token_exchange_view(code: Seq<char>, code_verifier: Seq<char>) -> RequestView {
    RequestView {
        method: Method::Post,
        url: TOKEN_URL@,
        authorization: None,
        query: seq![],
        body: BodyView::Form(
            seq![
                ("grant_type"@, "authorization_code"@),
                ("code"@, code),
                ("redirect_uri"@, REDIRECT_URI@),
                ("client_id"@, CLIENT_ID@),
                ("code_verifier"@, code_verifier),
            ],
        ),
        reply: Reply::Token,
        report_status: true,
    }
}

/// The request for the last `num_songs` plays.
pub open spec fn recently_played_view(num_songs: nat, access_token: Seq<char>) -> RequestView {
    RequestView {
        method: Method::Get,
        url: "https://api.spotify.com/v1/me/player/recently-played"@,
        authorization: Some(bearer_view(access_token)),
        query: seq![("limit"@, crate::text::decimal_digits(num_songs))],
        body: BodyView::Empty,
        reply: Reply::RecentlyPlayed,
        report_status: false,
    }
}

/// The URL of the tracks of a playlist.
pub open spec fn playlist_items_url_view(playlist_id: Seq<char>) -> Seq<char> {
    "https://api.spotify.com/v1/playlists/"@ + playlist_id + "/items"@
}

/// The request for one page of a list.
pub open spec fn page_view(url: Seq<char>, reply: Reply, access_token: Seq<char>) -> RequestView {
    RequestView {
        method: Method::Get,
        url,
        authorization: Some(bearer_view(access_token)),
        query: seq![("limit"@, "50"@)],
        body: BodyView::Empty,
        reply,
        report_status: false,
    }
}

/// The request that creates a playlist.
pub open spec fn create_playlist_view(
    playlist: NewPlaylistView,
    access_token: Seq<char>,
) -> RequestView {
    RequestView {
        method: Method::Post,
        url: "https://api.spotify.com/v1/me/playlists"@,
        authorization: Some(bearer_view(access_token)),
        query: seq![],
        body: BodyView::NewPlaylist(playlist),
        reply: Reply::PlaylistCreated,
        report_status: true,
    }
}

/// The request that takes a playlist out of the user's library.
pub open spec fn delete_playlist_view(
    playlist_uri: Seq<char>,
    access_token: Seq<char>,
) -> RequestView {
    RequestView {
        method: Method::Delete,
        url: "https://api.spotify.com/v1/me/library"@,
        authorization: Some(bearer_view(access_token)),
        query: seq![("uris"@, playlist_uri)],
        body: BodyView::Empty,
        reply: Reply::Ignored,
        report_status: false,
    }
}

/// The request that puts tracks into a playlist.
pub open spec fn add_tracks_view(
    playlist_id: Seq<char>,
    tracks: AddTracksView,
    access_token: Seq<char>,
) -> RequestView {
    RequestView {
        method: Method::Post,
        url: playlist_items_url_view(playlist_id),
        authorization: Some(bearer_view(access_token)),
        query: seq![],
        body: BodyView::AddTracks(tracks),
        reply: Reply::Ignored,
        report_status: true,
    }
}

/// The request that follows a playlist.
pub open spec fn follow_playlist_view(
    playlist_id: Seq<char>,
    access_token: Seq<char>,
) -> RequestView {
    RequestView {
        method: Method::Put,
        url: "https://api.spotify.com/v1/playlists/"@ + playlist_id + "/followers"@,
        authorization: Some(bearer_view(access_token)),
        query: seq![],
        body: BodyView::Empty,
        reply: Reply::Ignored,
        report_status: false,
    }
}

/// A text between two others.
fn between(left: &str, middle: &str, right: &str) -> (text: String)
    ensures
        text@ == left@ + middle@ + right@,
{
    let mut text = left.to_string();
    text.append(middle);
    text.append(right);
    text
}

/// A field of a form or a query.
fn field(name: &str, value: &str) -> (pair: (String, String))
    ensures
        pair.deep_view() == (name@, value@),
{
    (name.to_string(), value.to_string())
}

/// The `Authorization` header for an access token.
pub fn bearer(access_token: &str) -> (header: String)
    ensures
        header@ == bearer_view(access_token@),
{
    let mut header = "Bearer ".to_string();
    header.append(access_token);
    header
}

/// The request that trades a saved refresh token for an access token.
pub fn token_refresh_request(refresh_token: &str) -> (request: HttpRequest)
    ensures
        request.deep_view() == token_refresh_view(refresh_token@),
{
    let fields: Vec<(String, String)> = vec![
        field("grant_type", "refresh_token"),
        field("refresh_token", refresh_token),
        field("client_id", CLIENT_ID),
    ];
    assert(fields.deep_view() =~= token_refresh_view(refresh_token@).body->Form_0);
    let query: Vec<(String, String)> = Vec::new();
    assert(query.deep_view() =~= seq![]);
    HttpRequest {
        method: Method::Post,
        url: TOKEN_URL.to_string(),
        authorization: None,
        query,
        body: Body::Form(fields),
        reply: Reply::Token,
        report_status: true,
    }
}

/// The request that trades an authorization code and the code verifier for an access token.
pub fn token_exchange_request(code: &str, code_verifier: &str) -> (request: HttpRequest)
    ensures
        request.deep_view() == token_exchange_view(code@, code_verifier@),
{
    let fields: Vec<(String, String)> = vec![
        field("grant_type", "authorization_code"),
        field("code", code),
        field("redirect_uri", REDIRECT_URI),
        field("client_id", CLIENT_ID),
        field("code_verifier", code_verifier),
    ];
    assert(fields.deep_view() =~= token_exchange_view(code@, code_verifier@).body->Form_0);
    let query: Vec<(String, String)> = Vec::new();
    assert(query.deep_view() =~= seq![]);
    HttpRequest {
        method: Method::Post,
        url: TOKEN_URL.to_string(),
        authorization: None,
        query,
        body: Body::Form(fields),
        reply: Reply::Token,
        report_status: true,
    }
}

/// The request for the last `num_songs` plays.
pub fn recently_played_request(num_songs: u32, access_token: &str) -> (request: HttpRequest)
    ensures
        request.deep_view() == recently_played_view(num_songs as nat, access_token@),
{
    let query: Vec<(String, String)> = vec![
        field("limit", decimal(num_songs as u64).as_str()),
    ];
    assert(query.deep_view() =~= recently_played_view(num_songs as nat, access_token@).query);
    HttpRequest {
        method: Method::Get,
        url: "https://api.spotify.com/v1/me/player/recently-played".to_string(),
        authorization: Some(bearer(access_token)),
        query,
        body: Body::Empty,
        reply: Reply::RecentlyPlayed,
        report_status: false,
    }
}

/// The URL of the tracks of a playlist.
pub fn playlist_items_url(playlist_id: &str) -> (url: String)
    ensures
        url@ == playlist_items_url_view(playlist_id@),
{
    between("https://api.spotify.com/v1/playlists/", playlist_id, "/items")
}

/// The request for one page of a list.
fn page_request(url: &str, reply: Reply, access_token: &str) -> (request: HttpRequest)
    ensures
        request.deep_view() == page_view(url@, reply, access_token@),
{
    let query: Vec<(String, String)> = vec![field("limit", "50")];
    assert(query.deep_view() =~= page_view(url@, reply, access_token@).query);
    HttpRequest {
        method: Method::Get,
        url: url.to_string(),
        authorization: Some(bearer(access_token)),
        query,
        body: Body::Empty,
        reply,
        report_status: false,
    }
}

/// The request for one page of the tracks of a playlist.
pub fn playlist_items_request(url: &str, access_token: &str) -> (request: HttpRequest)
    ensures
        request.deep_view() == page_view(url@, Reply::PlaylistItems, access_token@),
{
    page_request(url, Reply::PlaylistItems, access_token)
}

/// The request for one page of the user's playlists.
pub fn user_playlists_request(url: &str, access_token: &str) -> (request: HttpRequest)
    ensures
        request.deep_view() == page_view(url@, Reply::UserPlaylists, access_token@),
{
    page_request(url, Reply::UserPlaylists, access_token)
}

/// The request that creates a playlist.
pub fn create_playlist_request(
    playlist: CreatePlaylistRequest,
    access_token: &str,
) -> (request: HttpRequest)
    ensures
        request.deep_view() == create_playlist_view(playlist.deep_view(), access_token@),
{
    let query: Vec<(String, String)> = Vec::new();
    assert(query.deep_view() =~= seq![]);
    HttpRequest {
        method: Method::Post,
        url: "https://api.spotify.com/v1/me/playlists".to_string(),
        authorization: Some(bearer(access_token)),
        query,
        body: Body::NewPlaylist(playlist),
        reply: Reply::PlaylistCreated,
        report_status: true,
    }
}

/// The request that takes a playlist out of the user's library.
pub fn delete_playlist_request(playlist_uri: &str, access_token: &str) -> (request: HttpRequest)
    ensures
        request.deep_view() == delete_playlist_view(playlist_uri@, access_token@),
{
    let query: Vec<(String, String)> = vec![field("uris", playlist_uri)];
    assert(query.deep_view() =~= delete_playlist_view(playlist_uri@, access_token@).query);
    HttpRequest {
        method: Method::Delete,
        url: "https://api.spotify.com/v1/me/library".to_string(),
        authorization: Some(bearer(access_token)),
        query,
        body: Body::Empty,
        reply: Reply::Ignored,
        report_status: false,
    }
}

/// The request that puts tracks into a playlist.
pub fn add_tracks_request(
    playlist_id: &str,
    tracks: AddTracksRequest,
    access_token: &str,
) -> (request: HttpRequest)
    ensures
        request.deep_view() == add_tracks_view(playlist_id@, tracks.deep_view(), access_token@),
{
    let query: Vec<(String, String)> = Vec::new();
    assert(query.deep_view() =~= seq![]);
    HttpRequest {
        method: Method::Post,
        url: playlist_items_url(playlist_id),
        authorization: Some(bearer(access_token)),
        query,
        body: Body::AddTracks(tracks),
        reply: Reply::Ignored,
        report_status: true,
    }
}

/// The request that follows a playlist.
pub fn follow_playlist_request(playlist_id: &str, access_token: &str) -> (request: HttpRequest)
    ensures
        request.deep_view() == follow_playlist_view(playlist_id@, access_token@),
{
    let query: Vec<(String, String)> = Vec::new();
    assert(query.deep_view() =~= seq![]);
    HttpRequest {
        method: Method::Put,
        url: between("https://api.spotify.com/v1/playlists/", playlist_id, "/followers"),
        authorization: Some(bearer(access_token)),
        query,
        body: Body::Empty,
        reply: Reply::Ignored,
        report_status: false,
    }
}

/// A refresh token is sent whole, with what it is for and who asks, to the token endpoint.
pub proof fn token_refresh_sends_the_token(refresh_token: Seq<char>)
    ensures
        ({
            let request = token_refresh_view(refresh_token);
            &&& request.method == Method::Post
            &&& request.url == "https://accounts.spotify.com/api/token"@
            &&& request.authorization is None
            &&& request.reply == Reply::Token
            &&& request.report_status == true
            &&& request.query.len() == 0
            &&& request.body matches BodyView::Form(fields)
            &&& fields.len() == 3
            &&& fields[0] == ("grant_type"@, "refresh_token"@)
            &&& fields[1] == ("refresh_token"@, refresh_token)
            &&& fields[2] == ("client_id"@, "029dec42942148988a90b86aa92756dd"@)
        }),
{
}

/// A code and a code verifier are sent whole, with what they are for, where the code came to
/// and who asks, to the token endpoint.
pub proof fn token_exchange_sends_code_and_verifier(code: Seq<char>, code_verifier: Seq<char>)
    ensures
        ({
            let request = token_exchange_view(code, code_verifier);
            &&& request.method == Method::Post
            &&& request.url == "https://accounts.spotify.com/api/token"@
            &&& request.authorization is None
            &&& request.reply == Reply::Token
            &&& request.report_status == true
            &&& request.query.len() == 0
            &&& request.body matches BodyView::Form(fields)
            &&& fields.len() == 5
            &&& fields[0] == ("grant_type"@, "authorization_code"@)
            &&& fields[1] == ("code"@, code)
            &&& fields[2] == ("redirect_uri"@, "http://127.0.0.1:8888/callback"@)
            &&& fields[3] == ("client_id"@, "029dec42942148988a90b86aa92756dd"@)
            &&& fields[4] == ("code_verifier"@, code_verifier)
        }),
{
}

/// The plays are asked for with the number of songs as the limit.
pub proof fn recently_played_asks_for_so_many(num_songs: nat, access_token: Seq<char>)
    ensures
        ({
            let request = recently_played_view(num_songs, access_token);
            &&& request.method == Method::Get
            &&& request.url == "https://api.spotify.com/v1/me/player/recently-played"@
            &&& request.authorization == Some("Bearer "@ + access_token)
            &&& request.reply == Reply::RecentlyPlayed
            &&& request.report_status == false
            &&& request.query.len() == 1
            &&& request.query[0] == ("limit"@, crate::text::decimal_digits(num_songs))
            &&& request.body is Empty
        }),
{
}

/// A page is asked for at the URL that was given, character for character.
pub proof fn pages_are_asked_for_at_their_url(url: Seq<char>, reply: Reply, access_token: Seq<char>)
    ensures
        ({
            let request = page_view(url, reply, access_token);
            &&& request.method == Method::Get
            &&& request.url == url
            &&& request.authorization == Some("Bearer "@ + access_token)
            &&& request.reply == reply
            &&& request.report_status == false
            &&& request.query.len() == 1
            &&& request.query[0] == ("limit"@, "50"@)
            &&& request.body is Empty
        }),
{
}

/// A playlist is created with the name and the description that were given.
pub proof fn creation_sends_name_and_description(playlist: NewPlaylistView, access_token: Seq<char>)
    ensures
        ({
            let request = create_playlist_view(playlist, access_token);
            &&& request.method == Method::Post
            &&& request.url == "https://api.spotify.com/v1/me/playlists"@
            &&& request.authorization == Some("Bearer "@ + access_token)
            &&& request.reply == Reply::PlaylistCreated
            &&& request.report_status == true
            &&& request.query.len() == 0
            &&& request.body matches BodyView::NewPlaylist(sent)
            &&& sent.name == playlist.name
            &&& sent.description == playlist.description
        }),
{
}

/// A playlist is deleted by its URI, whole.
pub proof fn deletion_names_the_playlist(playlist_uri: Seq<char>, access_token: Seq<char>)
    ensures
        ({
            let request = delete_playlist_view(playlist_uri, access_token);
            &&& request.method == Method::Delete
            &&& request.url == "https://api.spotify.com/v1/me/library"@
            &&& request.authorization == Some("Bearer "@ + access_token)
            &&& request.reply == Reply::Ignored
            &&& request.report_status == false
            &&& request.query.len() == 1
            &&& request.query[0] == ("uris"@, playlist_uri)
            &&& request.body is Empty
        }),
{
}

/// All the tracks that were given are added, at the position that was given, to the playlist
/// that was given.
pub proof fn addition_sends_every_track(playlist_id: Seq<char>, tracks: AddTracksView, access_token: Seq<char>)
    ensures
        ({
            let request = add_tracks_view(playlist_id, tracks, access_token);
            &&& request.method == Method::Post
            &&& request.url == "https://api.spotify.com/v1/playlists/"@ + playlist_id + "/items"@
            &&& request.authorization == Some("Bearer "@ + access_token)
            &&& request.reply == Reply::Ignored
            &&& request.report_status == true
            &&& request.query.len() == 0
            &&& request.body matches BodyView::AddTracks(sent)
            &&& sent.uris == tracks.uris
            &&& sent.position == tracks.position
        }),
{
}

/// The playlist that was given is followed.
pub proof fn following_names_the_playlist(playlist_id: Seq<char>, access_token: Seq<char>)
    ensures
        ({
            let request = follow_playlist_view(playlist_id, access_token);
            &&& request.method == Method::Put
            &&& request.url == "https://api.spotify.com/v1/playlists/"@ + playlist_id + "/followers"@
            &&& request.authorization == Some("Bearer "@ + access_token)
            &&& request.reply == Reply::Ignored
            &&& request.report_status == false
            &&& request.query.len() == 0
            &&& request.body is Empty
        }),
{
}

/// The tracks of a playlist are found under its id, whole; the header holds the access token,
/// whole.
pub proof fn urls_and_headers_hold_their_part(id: Seq<char>, access_token: Seq<char>)
    ensures
        playlist_items_url_view(id) == "https://api.spotify.com/v1/playlists/"@ + id + "/items"@,
        bearer_view(access_token) == "Bearer "@ + access_token,
        USER_PLAYLISTS_URL@ == "https://api.spotify.com/v1/me/playlists"@,
        TOKEN_URL@ == "https://accounts.spotify.com/api/token"@,
        REDIRECT_URI@ == "http://127.0.0.1:8888/callback"@,
        CLIENT_ID@ == "029dec42942148988a90b86aa92756dd"@,
{
}

/// The view of a request holds every part of it.
pub proof fn request_view_shows_the_request(request: HttpRequest)
    ensures
        request.deep_view().method == request.method,
        request.deep_view().url == request.url@,
        request.deep_view().reply == request.reply,
        request.deep_view().report_status == request.report_status,
        request.authorization is None ==> request.deep_view().authorization is None,
        request.authorization matches Some(header) ==> request.deep_view().authorization == Some(
            header@,
        ),
        request.deep_view().query.len() == request.query@.len(),
        forall|i: int|
            0 <= i < request.query@.len() ==> #[trigger] request.deep_view().query[i] == (
                request.query@[i].0@,
                request.query@[i].1@,
            ),
        match request.body {
            Body::Empty => request.deep_view().body is Empty,
            Body::Form(fields) => {
                &&& request.deep_view().body matches BodyView::Form(shown)
                &&& shown.len() == fields@.len()
                &&& forall|i: int|
                    0 <= i < fields@.len() ==> #[trigger] shown[i] == (fields@[i].0@, fields@[i].1@)
            },
            Body::NewPlaylist(playlist) => {
                &&& request.deep_view().body matches BodyView::NewPlaylist(shown)
                &&& shown.name == playlist.name@
                &&& shown.description == playlist.description@
            },
            Body::AddTracks(tracks) => {
                &&& request.deep_view().body matches BodyView::AddTracks(shown)
                &&& shown.position == tracks.position
                &&& shown.uris.len() == tracks.uris@.len()
                &&& forall|i: int|
                    0 <= i < tracks.uris@.len() ==> #[trigger] shown.uris[i] == tracks.uris@[i]@
            },
        },
{
}

} // verus!
