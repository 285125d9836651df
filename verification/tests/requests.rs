use spotty::api::{AddTracksRequest, CreatePlaylistRequest};
use spotty::requests::{
    add_tracks_request, bearer, create_playlist_request, delete_playlist_request,
    follow_playlist_request, playlist_items_request, playlist_items_url, recently_played_request,
    token_exchange_request, token_refresh_request, user_playlists_request, Body, HttpRequest,
    Method, Reply,
};

fn pairs(list: &[(&str, &str)]) -> Vec<(String, String)> {
    list.iter().map(|(name, value)| (name.to_string(), value.to_string())).collect()
}

#[test]
fn bearer_header() {
    assert_eq!(bearer("TOKEN"), "Bearer TOKEN");
}

#[test]
fn token_refresh() {
    assert_eq!(
        token_refresh_request("R"),
        HttpRequest {
            method: Method::Post,
            url: "https://accounts.spotify.com/api/token".to_string(),
            authorization: None,
            query: vec![],
            body: Body::Form(pairs(&[
                ("grant_type", "refresh_token"),
                ("refresh_token", "R"),
                ("client_id", "029dec42942148988a90b86aa92756dd"),
            ])),
            reply: Reply::Token,
            report_status: true,
        }
    );
}

#[test]
fn token_exchange() {
    assert_eq!(
        token_exchange_request("C", "V"),
        HttpRequest {
            method: Method::Post,
            url: "https://accounts.spotify.com/api/token".to_string(),
            authorization: None,
            query: vec![],
            body: Body::Form(pairs(&[
                ("grant_type", "authorization_code"),
                ("code", "C"),
                ("redirect_uri", "http://127.0.0.1:8888/callback"),
                ("client_id", "029dec42942148988a90b86aa92756dd"),
                ("code_verifier", "V"),
            ])),
            reply: Reply::Token,
            report_status: true,
        }
    );
}

#[test]
fn recently_played() {
    assert_eq!(
        recently_played_request(25, "T"),
        HttpRequest {
            method: Method::Get,
            url: "https://api.spotify.com/v1/me/player/recently-played".to_string(),
            authorization: Some("Bearer T".to_string()),
            query: pairs(&[("limit", "25")]),
            body: Body::Empty,
            reply: Reply::RecentlyPlayed,
            report_status: false,
        }
    );
}

#[test]
fn pages() {
    assert_eq!(playlist_items_url("P"), "https://api.spotify.com/v1/playlists/P/items");
    let items = playlist_items_request("https://next", "T");
    assert_eq!(
        items,
        HttpRequest {
            method: Method::Get,
            url: "https://next".to_string(),
            authorization: Some("Bearer T".to_string()),
            query: pairs(&[("limit", "50")]),
            body: Body::Empty,
            reply: Reply::PlaylistItems,
            report_status: false,
        }
    );
    let playlists = user_playlists_request("https://next", "T");
    assert_eq!(playlists, HttpRequest { reply: Reply::UserPlaylists, ..items });
}

#[test]
fn create_playlist() {
    let playlist = CreatePlaylistRequest {
        name: "N".to_string(),
        description: "D".to_string(),
    };
    assert_eq!(
        create_playlist_request(playlist, "T"),
        HttpRequest {
            method: Method::Post,
            url: "https://api.spotify.com/v1/me/playlists".to_string(),
            authorization: Some("Bearer T".to_string()),
            query: vec![],
            body: Body::NewPlaylist(CreatePlaylistRequest {
                name: "N".to_string(),
                description: "D".to_string(),
            }),
            reply: Reply::PlaylistCreated,
            report_status: true,
        }
    );
}

#[test]
fn delete_playlist() {
    assert_eq!(
        delete_playlist_request("spotify:playlist:P", "T"),
        HttpRequest {
            method: Method::Delete,
            url: "https://api.spotify.com/v1/me/library".to_string(),
            authorization: Some("Bearer T".to_string()),
            query: pairs(&[("uris", "spotify:playlist:P")]),
            body: Body::Empty,
            reply: Reply::Ignored,
            report_status: false,
        }
    );
}

#[test]
fn add_tracks() {
    let tracks = AddTracksRequest { uris: vec!["a".to_string()], position: 0 };
    assert_eq!(
        add_tracks_request("P", tracks, "T"),
        HttpRequest {
            method: Method::Post,
            url: "https://api.spotify.com/v1/playlists/P/items".to_string(),
            authorization: Some("Bearer T".to_string()),
            query: vec![],
            body: Body::AddTracks(AddTracksRequest { uris: vec!["a".to_string()], position: 0 }),
            reply: Reply::Ignored,
            report_status: true,
        }
    );
}

#[test]
fn follow_playlist() {
    assert_eq!(
        follow_playlist_request("P", "T"),
        HttpRequest {
            method: Method::Put,
            url: "https://api.spotify.com/v1/playlists/P/followers".to_string(),
            authorization: Some("Bearer T".to_string()),
            query: vec![],
            body: Body::Empty,
            reply: Reply::Ignored,
            report_status: false,
        }
    );
}
