use spotty::api::{
    Album, PlayHistoryObject, PlaylistItemsResponse, PlaylistTrackObject,
    SimplifiedPlaylistObject, SpotifyRecentlyPlayedResponse, TrackObject,
};
use spotty::playlists::playlists_matching_prefix;
use spotty::tracks::{
    add_at_the_top, append_page, page_names, recently_played_names, recently_played_uris, UriSet,
};

fn texts(list: &[&str]) -> Vec<String> {
    list.iter().map(|text| text.to_string()).collect()
}

fn track(name: &str, uri: &str) -> TrackObject {
    TrackObject {
        name: name.to_string(),
        artists: vec![],
        album: Album { name: String::new(), images: vec![] },
        uri: uri.to_string(),
    }
}

fn played(list: &[(&str, &str)]) -> SpotifyRecentlyPlayedResponse {
    SpotifyRecentlyPlayedResponse {
        limit: list.len() as u64,
        next: String::new(),
        items: list
            .iter()
            .map(|(name, uri)| PlayHistoryObject {
                track: track(name, uri),
                played_at: String::new(),
            })
            .collect(),
    }
}

fn page(list: &[(&str, &str)]) -> PlaylistItemsResponse {
    PlaylistItemsResponse {
        items: list
            .iter()
            .map(|(name, uri)| PlaylistTrackObject { item: track(name, uri) })
            .collect(),
        next: None,
    }
}

fn playlist(name: &str, id: &str) -> SimplifiedPlaylistObject {
    SimplifiedPlaylistObject {
        name: name.to_string(),
        id: id.to_string(),
        uri: String::new(),
    }
}

#[test]
fn repeated_plays_count_once() {
    let response = played(&[("A", "a"), ("B", "b"), ("A again", "a"), ("C", "c")]);
    let set = recently_played_uris(&response);
    assert_eq!(set.len(), 3);
    assert_eq!(set.into_uris(), texts(&["a", "b", "c"]));
    assert_eq!(recently_played_names(&response), texts(&["A", "B", "A again", "C"]));
}

#[test]
fn no_plays() {
    assert_eq!(recently_played_uris(&played(&[])).len(), 0);
    assert!(recently_played_names(&played(&[])).is_empty());
}

#[test]
fn sets_hold_each_uri_once() {
    let mut set = UriSet::new();
    assert_eq!(set.len(), 0);
    set.insert("a".to_string());
    set.insert("b".to_string());
    set.insert("a".to_string());
    assert_eq!(set.len(), 2);
    assert_eq!(set.into_uris(), texts(&["a", "b"]));
}

#[test]
fn present_tracks_are_removed() {
    let mut set = recently_played_uris(&played(&[("", "a"), ("", "b"), ("", "c")]));
    set.remove_all(&texts(&["b", "x", "b"]));
    assert_eq!(set.into_uris(), texts(&["a", "c"]));
}

#[test]
fn nothing_is_added_twice() {
    let response = played(&[("", "a"), ("", "b")]);
    let mut first = recently_played_uris(&response);
    let mut present = texts(&["b"]);
    first.remove_all(&present);
    present.extend(first.into_uris());
    let mut second = recently_played_uris(&response);
    second.remove_all(&present);
    assert_eq!(second.len(), 0);
}

#[test]
fn additions_go_to_the_top() {
    let mut set = UriSet::new();
    set.insert("a".to_string());
    let body = add_at_the_top(set);
    assert_eq!(body.uris, texts(&["a"]));
    assert_eq!(body.position, 0);
}

#[test]
fn pages_are_appended_in_order() {
    let mut songs = texts(&["a"]);
    append_page(&mut songs, &page(&[("B", "b"), ("A", "a")]));
    append_page(&mut songs, &page(&[]));
    append_page(&mut songs, &page(&[("C", "c")]));
    assert_eq!(songs, texts(&["a", "b", "a", "c"]));
    assert_eq!(page_names(&page(&[("B", "b"), ("A", "a")])), texts(&["B", "A"]));
}

#[test]
fn playlists_by_prefix() {
    let playlists = || vec![playlist("Rock", "1"), playlist("road trip", "2"), playlist("Jazz", "3")];
    let ids = |prefix: &str| -> Vec<String> {
        playlists_matching_prefix(playlists(), prefix).into_iter().map(|p| p.id).collect()
    };
    assert_eq!(ids("RO"), texts(&["1", "2"]));
    assert_eq!(ids("ro"), texts(&["1", "2"]));
    assert_eq!(ids("ROAD TRIP"), texts(&["2"]));
    assert_eq!(ids(""), texts(&["1", "2", "3"]));
    assert_eq!(ids("pop"), texts(&[]));
}

#[test]
fn longer_prefixes_only_drop_playlists() {
    let playlists = || vec![playlist("Rock", "1"), playlist("road trip", "2"), playlist("Jazz", "3")];
    let whole = "Road Trip";
    for end in 0..=whole.len() {
        for start in 0..=end {
            let direct = playlists_matching_prefix(playlists(), &whole[..end]);
            let narrowed = playlists_matching_prefix(
                playlists_matching_prefix(playlists(), &whole[..start]),
                &whole[..end],
            );
            assert_eq!(direct, narrowed);
        }
    }
}
