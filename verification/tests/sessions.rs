use spotty::api::{
    AddTracksRequest, Album, CreatePlaylistRequest, CreatePlaylistResponse,
    GetUserPlaylistsResponse, PlayHistoryObject, PlaylistItemsResponse, PlaylistTrackObject,
    SimplifiedPlaylistObject, SpotifyRecentlyPlayedResponse, SpotifyTokenResponse, TrackObject,
};
use spotty::auth::auth_url;
use spotty::pkce::{generate_code_challenge, RandomError};
use spotty::requests::{
    add_tracks_request, create_playlist_request, delete_playlist_request, follow_playlist_request,
    playlist_items_request, playlist_items_url, recently_played_request, token_exchange_request,
    token_refresh_request, user_playlists_request,
};
use spotty::session::{Action, Commands, Event, RecentArgs, Session, Step};

fn texts(list: &[&str]) -> Vec<String> {
    list.iter().map(|text| text.to_string()).collect()
}

fn token(access: &str, refresh: Option<&str>) -> Event {
    Event::Token(Some(SpotifyTokenResponse {
        access_token: access.to_string(),
        token_type: "Bearer".to_string(),
        expires_in: 3600,
        refresh_token: refresh.map(|text| text.to_string()),
        scope: String::new(),
    }))
}

fn track(name: &str) -> TrackObject {
    TrackObject {
        name: name.to_uppercase(),
        artists: vec![],
        album: Album { name: String::new(), images: vec![] },
        uri: name.to_string(),
    }
}

fn played(names: &[&str]) -> Event {
    Event::RecentlyPlayed(SpotifyRecentlyPlayedResponse {
        limit: 10,
        next: String::new(),
        items: names
            .iter()
            .map(|name| PlayHistoryObject { track: track(name), played_at: String::new() })
            .collect(),
    })
}

fn songs(names: &[&str], next: Option<&str>) -> Event {
    Event::PlaylistItems(PlaylistItemsResponse {
        items: names.iter().map(|name| PlaylistTrackObject { item: track(name) }).collect(),
        next: next.map(|text| text.to_string()),
    })
}

fn playlists(names: &[(&str, &str)], next: Option<&str>) -> Event {
    Event::UserPlaylists(GetUserPlaylistsResponse {
        items: names
            .iter()
            .map(|(name, id)| SimplifiedPlaylistObject {
                name: name.to_string(),
                id: id.to_string(),
                uri: String::new(),
            })
            .collect(),
        next: next.map(|text| text.to_string()),
    })
}

fn created(id: &str, uri: &str) -> Event {
    Event::PlaylistCreated(CreatePlaylistResponse { id: id.to_string(), uri: uri.to_string() })
}

fn recent(name: Option<&str>, prefix: Option<&str>) -> Commands {
    Commands::Recent(RecentArgs {
        num_songs: 10,
        name: name.map(|text| text.to_string()),
        prefix: prefix.map(|text| text.to_string()),
    })
}

fn saved(text: &str) -> Event {
    Event::SavedToken(Some(text.to_string()))
}

/// Feeds events to a command and gives the last state and step.
fn play(command: Commands, events: Vec<Event>) -> (Session, Step) {
    let (mut session, mut step) = Session::start(command);
    for event in events {
        assert!(session.awaits(&event));
        let advanced = session.step(event);
        session = advanced.0;
        step = advanced.1;
    }
    (session, step)
}

fn last(command: Commands, events: Vec<Event>) -> Step {
    play(command, events).1
}

fn step(lines: &[&str], action: Action) -> Step {
    Step { lines: texts(lines), action }
}

#[test]
fn every_command_reads_the_saved_token() {
    assert_eq!(last(Commands::Login, vec![]), step(&[], Action::ReadRefreshToken));
    assert_eq!(last(Commands::Refresh, vec![]), step(&[], Action::ReadRefreshToken));
    assert_eq!(last(recent(None, None), vec![]), step(&[], Action::ReadRefreshToken));
}

#[test]
fn saved_token_is_refreshed() {
    assert_eq!(
        last(Commands::Refresh, vec![saved("R")]),
        step(&["Using saved refresh token"], Action::Send(token_refresh_request("R")))
    );
}

#[test]
fn login_goes_to_the_browser_even_with_a_saved_token() {
    let expected = || {
        step(&["No refresh token, starting browser login"], Action::CreateVerifier)
    };
    assert_eq!(last(Commands::Login, vec![saved("R")]), expected());
    assert_eq!(last(Commands::Refresh, vec![Event::SavedToken(None)]), expected());
}

#[test]
fn browser_login() {
    let (session, opening) = play(
        Commands::Login,
        vec![Event::SavedToken(None), Event::Verifier("V".to_string())],
    );
    assert_eq!(
        opening,
        step(&[], Action::OpenBrowser(auth_url(&generate_code_challenge("V"))))
    );
    assert!(session.awaits(&Event::BrowserOpened));
    let (session, waiting) = session.step(Event::BrowserOpened);
    assert_eq!(waiting, step(&["Waiting for Spotify callback..."], Action::AwaitCallback));
    let (session, exchange) = session.step(Event::Callback(Some("C".to_string())));
    assert_eq!(
        exchange,
        step(
            &["Done. Now exchange code for token using POST /api/token"],
            Action::Send(token_exchange_request("C", "V"))
        )
    );
    let (session, saving) = session.step(token("T", Some("R")));
    assert_eq!(
        saving,
        step(&["Access token: T"], Action::SaveRefreshToken("R".to_string()))
    );
    let (session, done) = session.step(Event::TokenSaved);
    assert_eq!(done, step(&[], Action::Finish));
    assert!(!session.awaits(&Event::Sent));
    assert!(!session.awaits(&Event::TokenSaved));
}

#[test]
fn fresh_verifier_goes_to_the_challenge() {
    let (session, _) = play(Commands::Login, vec![Event::SavedToken(None)]);
    assert!(session.awaits_verifier());
    let (session, opening) = session.create_verifier().ok().unwrap();
    assert!(!session.awaits_verifier());
    let url = match opening.action {
        Action::OpenBrowser(url) => url,
        _ => panic!("no browser"),
    };
    let (session, _) = session.step(Event::BrowserOpened);
    let (_, exchange) = session.step(Event::Callback(Some("C".to_string())));
    let request = match exchange.action {
        Action::Send(request) => request,
        _ => panic!("no request"),
    };
    let verifier = match request.body {
        spotty::requests::Body::Form(fields) => fields[4].1.clone(),
        _ => panic!("no form"),
    };
    assert_eq!(url, auth_url(&generate_code_challenge(&verifier)));
}

#[test]
fn login_without_code_fails() {
    let events = vec![
        Event::SavedToken(None),
        Event::Verifier("V".to_string()),
        Event::BrowserOpened,
        Event::Callback(None),
    ];
    assert_eq!(
        last(Commands::Login, events),
        step(
            &["Done. Now exchange code for token using POST /api/token"],
            Action::Fail("Failed to get token".to_string())
        )
    );
}

#[test]
fn login_without_token_fails() {
    assert_eq!(
        last(Commands::Refresh, vec![saved("R"), Event::Token(None)]),
        step(&[], Action::Fail("Failed to get token".to_string()))
    );
}

#[test]
fn token_without_refresh_token_is_not_saved() {
    let events = vec![
        Event::SavedToken(None),
        Event::Verifier("V".to_string()),
        Event::BrowserOpened,
        Event::Callback(Some("C".to_string())),
        token("T", None),
    ];
    assert_eq!(last(Commands::Login, events), step(&["Access token: T"], Action::Finish));
}

#[test]
fn refresh_creates_and_deletes() {
    let scratch = CreatePlaylistRequest {
        name: "TEMP".to_string(),
        description: "TEMP".to_string(),
    };
    assert_eq!(
        last(Commands::Refresh, vec![saved("R"), token("T", None)]),
        step(&["Access token: T"], Action::Send(create_playlist_request(scratch, "T")))
    );
    assert_eq!(
        last(Commands::Refresh, vec![saved("R"), token("T", None), created("P", "uri:P")]),
        step(&[], Action::Send(delete_playlist_request("uri:P", "T")))
    );
    assert_eq!(
        last(
            Commands::Refresh,
            vec![saved("R"), token("T", None), created("P", "uri:P"), Event::Sent]
        ),
        step(&[], Action::Finish)
    );
}

#[test]
fn recent_asks_for_the_plays() {
    assert_eq!(
        last(recent(Some("N"), None), vec![saved("R"), token("T", None)]),
        step(
            &["Access token: T", "Access token: T"],
            Action::Send(recently_played_request(10, "T"))
        )
    );
    assert_eq!(
        last(recent(Some("N"), None), vec![saved("R"), token("T", Some("R2")), Event::TokenSaved]),
        step(&["Access token: T"], Action::Send(recently_played_request(10, "T")))
    );
}

#[test]
fn recent_by_name() {
    let playlist = CreatePlaylistRequest { name: "N".to_string(), description: "NA".to_string() };
    let (session, creating) = play(
        recent(Some("N"), None),
        vec![saved("R"), token("T", None), played(&["a", "b", "a"])],
    );
    assert_eq!(
        creating,
        step(&["A", "B", "A"], Action::Send(create_playlist_request(playlist, "T")))
    );
    let (session, listing) = session.step(created("P", "uri:P"));
    assert_eq!(
        listing,
        step(
            &["Playlist ID: uri:P"],
            Action::Send(playlist_items_request(&playlist_items_url("P"), "T"))
        )
    );
    let (session, adding) = session.step(songs(&[], None));
    let tracks = AddTracksRequest { uris: texts(&["a", "b"]), position: 0 };
    assert_eq!(
        adding,
        step(
            &["Adding 2 songs to playlist"],
            Action::Send(add_tracks_request("P", tracks, "T"))
        )
    );
    let (session, following) = session.step(Event::Sent);
    assert_eq!(following, step(&[], Action::Send(follow_playlist_request("P", "T"))));
    let (_, done) = session.step(Event::Sent);
    assert_eq!(done, step(&[], Action::Finish));
}

#[test]
fn recent_by_prefix_reads_all_pages() {
    let (session, first_page) = play(
        recent(None, Some("ro")),
        vec![saved("R"), token("T", None), played(&["a", "b", "c"])],
    );
    assert_eq!(
        first_page,
        step(
            &["A", "B", "C"],
            Action::Send(user_playlists_request(
                "https://api.spotify.com/v1/me/playlists",
                "T"
            ))
        )
    );
    let (session, second_page) = session.step(playlists(&[("Jazz", "1")], Some("https://p2")));
    assert_eq!(
        second_page,
        step(&[], Action::Send(user_playlists_request("https://p2", "T")))
    );
    let (session, opening) = session.step(playlists(&[("Rock", "2"), ("ROAD", "3")], None));
    assert_eq!(
        opening,
        step(
            &["MATCH FOUND: Rock", "MATCH FOUND: ROAD", "Found Rock matching prefix"],
            Action::Send(playlist_items_request(&playlist_items_url("2"), "T"))
        )
    );
    let (session, more) = session.step(songs(&["a"], Some("https://s2")));
    assert_eq!(
        more,
        step(&["A"], Action::Send(playlist_items_request("https://s2", "T")))
    );
    let (_, adding) = session.step(songs(&["x", "c"], None));
    let tracks = AddTracksRequest { uris: texts(&["b"]), position: 0 };
    assert_eq!(
        adding,
        step(
            &["X", "C", "Adding 1 songs to playlist"],
            Action::Send(add_tracks_request("2", tracks, "T"))
        )
    );
}

#[test]
fn recent_with_nothing_new_stops() {
    let events = vec![
        saved("R"),
        token("T", None),
        played(&["a", "a"]),
        playlists(&[("Rock", "2")], None),
        songs(&["a"], None),
    ];
    assert_eq!(
        last(recent(None, Some("Rock")), events),
        step(&["A", "Adding 0 songs to playlist"], Action::Finish)
    );
}

#[test]
fn recent_without_match_stops() {
    let events = vec![
        saved("R"),
        token("T", None),
        played(&["a"]),
        playlists(&[("Rock", "2")], None),
    ];
    assert_eq!(last(recent(None, Some("jazz")), events), step(&[], Action::Finish));
}

#[test]
fn prefix_goes_before_name() {
    assert_eq!(
        last(
            recent(Some("N"), Some("ro")),
            vec![saved("R"), token("T", None), played(&[])]
        ),
        step(
            &[],
            Action::Send(user_playlists_request(
                "https://api.spotify.com/v1/me/playlists",
                "T"
            ))
        )
    );
}

#[test]
fn recent_without_name_or_prefix_stops() {
    assert_eq!(
        last(recent(None, None), vec![saved("R"), token("T", None), played(&["a"])]),
        step(&["A"], Action::Finish)
    );
}

#[test]
fn events_out_of_turn_are_not_awaited() {
    let (session, _) = Session::start(Commands::Login);
    assert!(session.awaits(&Event::SavedToken(None)));
    assert!(!session.awaits(&Event::Sent));
    assert!(!session.awaits(&token("T", None)));
    assert!(!session.awaits(&songs(&[], None)));
    assert!(!session.awaits_verifier());
}

#[test]
fn verifier_is_taken_as_it_comes() {
    let (session, _) = play(Commands::Login, vec![Event::SavedToken(None)]);
    let (session, opening) = session.take_verifier(Ok("V".to_string())).ok().unwrap();
    assert_eq!(
        opening,
        step(&[], Action::OpenBrowser(auth_url(&generate_code_challenge("V"))))
    );
    assert!(session.awaits(&Event::BrowserOpened));
}

#[test]
fn missing_verifier_is_an_error() {
    let (session, _) = play(Commands::Login, vec![Event::SavedToken(None)]);
    let failure = RandomError { cause: rand::Error::new("no entropy") };
    let error = session.take_verifier(Err(failure)).err().unwrap();
    assert_eq!(error.cause.to_string(), "no entropy");
}

#[test]
fn failed_requests_end_the_session() {
    let until = |count: usize| -> Vec<Event> {
        vec![
            saved("R"),
            token("T", Some("R2")),
            Event::TokenSaved,
            played(&["a"]),
            playlists(&[("Rock", "1")], Some("https://p2")),
            playlists(&[("Road", "2")], None),
            songs(&["x"], None),
            Event::Sent,
        ]
        .into_iter()
        .take(count)
        .collect()
    };
    for count in 1..=8 {
        let (session, _) = play(recent(None, Some("ro")), until(count));
        let failure = Event::Failed("connection lost".to_string());
        assert!(session.awaits(&failure));
        let (session, stopped) = session.step(failure);
        assert_eq!(stopped, step(&[], Action::Fail("connection lost".to_string())));
        assert!(!session.awaits(&Event::Sent));
        assert!(!session.awaits(&songs(&[], None)));
        assert!(!session.awaits(&Event::Failed(String::new())));
    }
}

#[test]
fn only_requests_and_savings_fail() {
    let failure = Event::Failed("no".to_string());
    let (session, _) = Session::start(Commands::Login);
    assert!(!session.awaits(&failure));
    let (session, _) = session.step(Event::SavedToken(None));
    assert!(!session.awaits(&failure));
    let (session, _) = session.step(Event::Verifier("V".to_string()));
    assert!(!session.awaits(&failure));
    let (session, _) = session.step(Event::BrowserOpened);
    assert!(!session.awaits(&failure));
    let (session, _) = session.step(Event::Callback(Some("C".to_string())));
    assert!(session.awaits(&failure));
    let (session, _) = session.step(token("T", Some("R")));
    assert!(session.awaits(&failure));
    let (session, _) = session.step(Event::TokenSaved);
    assert!(!session.awaits(&failure));
}

#[test]
fn listing_does_not_depend_on_the_prefix() {
    let events = || {
        vec![
            saved("R"),
            token("T", None),
            played(&["a"]),
            playlists(&[("Rock", "1")], Some("https://p2")),
        ]
    };
    assert_eq!(
        last(recent(None, Some("ro")), events()),
        last(recent(None, Some("jazz")), events())
    );
}

#[test]
fn empty_prefix_takes_the_first_playlist() {
    let events = vec![
        saved("R"),
        token("T", None),
        played(&[]),
        playlists(&[("Jazz", "1"), ("Rock", "2")], None),
    ];
    assert_eq!(
        last(recent(None, Some("")), events).action,
        Action::Send(playlist_items_request(&playlist_items_url("1"), "T"))
    );
}
