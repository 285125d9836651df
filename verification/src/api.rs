//! What the Spotify Web API takes and gives.
//!
//! Each type stands here with all the fields of its JSON form. Its deep view holds the fields
//! that the client acts on.

use vstd::prelude::*;

verus! {

/// The reply of the token endpoint.
#[derive(Debug, PartialEq, Eq)]
pub struct SpotifyTokenResponse {
    pub access_token: String,
    pub token_type: String,
    pub expires_in: u64,
    pub refresh_token: Option<String>,
    pub scope: String,
}

/// The recently played tracks.
#[derive(Debug, PartialEq, Eq)]
pub struct SpotifyRecentlyPlayedResponse {
    pub limit: u64,
    pub next: String,
    pub items: Vec<PlayHistoryObject>,
}

/// One play of a track.
#[derive(Debug, PartialEq, Eq)]
pub struct PlayHistoryObject {
    pub track: TrackObject,
    pub played_at: String,
}

/// One page of the tracks of a playlist.
#[derive(Debug, PartialEq, Eq)]
pub struct PlaylistItemsResponse {
    pub items: Vec<PlaylistTrackObject>,
    pub next: Option<String>,
}

/// One entry of a playlist.
#[derive(Debug, PartialEq, Eq)]
pub struct PlaylistTrackObject {
    pub item: TrackObject,
}

/// A track.
#[derive(Debug, PartialEq, Eq)]
pub struct TrackObject {
    pub name: String,
    pub artists: Vec<Artist>,
    pub album: Album,
    pub uri: String,
}

/// An artist of a track.
#[derive(Debug, PartialEq, Eq)]
pub struct Artist {
    pub name: String,
}

/// The album of a track.
#[derive(Debug, PartialEq, Eq)]
pub struct Album {
    pub name: String,
    pub images: Vec<Image>,
}

/// A cover image.
#[derive(Debug, PartialEq, Eq)]
pub struct Image {
    pub url: String,
}

/// The body that adds tracks to a playlist.
#[derive(Debug, PartialEq, Eq)]
pub struct AddTracksRequest {
    pub uris: Vec<String>,
    pub position: u32,
}

/// The body that creates a playlist.
#[derive(Debug, PartialEq, Eq)]
pub struct CreatePlaylistRequest {
    pub name: String,
    pub description: String,
}

/// A playlist that was created.
#[derive(Debug, PartialEq, Eq)]
pub struct CreatePlaylistResponse {
    pub id: String,
    pub uri: String,
}

/// A playlist of the user.
#[derive(Debug, PartialEq, Eq)]
pub struct SimplifiedPlaylistObject {
    pub name: String,
    pub id: String,
    pub uri: String,
}

/// One page of the user's playlists.
#[derive(Debug, PartialEq, Eq)]
pub struct GetUserPlaylistsResponse {
    pub items: Vec<SimplifiedPlaylistObject>,
    pub next: Option<String>,
}

/// The tokens of a token reply.
pub struct TokenView {
    pub access_token: Seq<char>,
    pub refresh_token: Option<Seq<char>>,
}

/// The name and the URI of a track.
pub struct TrackView {
    pub name: Seq<char>,
    pub uri: Seq<char>,
}

/// A playlist of the user.
pub struct PlaylistView {
    pub name: Seq<char>,
    pub id: Seq<char>,
    pub uri: Seq<char>,
}

/// A playlist that was created.
pub struct CreatedView {
    pub id: Seq<char>,
    pub uri: Seq<char>,
}

/// The body that creates a playlist.
pub struct NewPlaylistView {
    pub name: Seq<char>,
    pub description: Seq<char>,
}

/// The body that adds tracks to a playlist.
pub struct AddTracksView {
    pub uris: Seq<Seq<char>>,
    pub position: int,
}

/// One page of a list, and the URL of the page behind it.
pub struct PageView<T> {
    pub items: Seq<T>,
    pub next: Option<Seq<char>>,
}

impl DeepView for SpotifyTokenResponse {
    type V = TokenView;

    open spec fn deep_view(&self) -> TokenView {
        TokenView {
            access_token: self.access_token@,
            refresh_token: self.refresh_token.deep_view(),
        }
    }
}

impl DeepView for TrackObject {
    type V = TrackView;

    open spec fn deep_view(&self) -> TrackView {
        TrackView { name: self.name@, uri: self.uri@ }
    }
}

impl DeepView for PlayHistoryObject {
    type V = TrackView;

    open spec fn deep_view(&self) -> TrackView {
        self.track.deep_view()
    }
}

impl DeepView for SpotifyRecentlyPlayedResponse {
    type V = Seq<TrackView>;

    open spec fn deep_view(&self) -> Seq<TrackView> {
        self.items.deep_view()
    }
}

impl DeepView for PlaylistTrackObject {
    type V = TrackView;

    open spec fn deep_view(&self) -> TrackView {
        self.item.deep_view()
    }
}

impl DeepView for PlaylistItemsResponse {
    type V = PageView<TrackView>;

    open spec fn deep_view(&self) -> PageView<TrackView> {
        PageView { items: self.items.deep_view(), next: self.next.deep_view() }
    }
}

impl DeepView for AddTracksRequest {
    type V = AddTracksView;

    open spec fn deep_view(&self) -> AddTracksView {
        AddTracksView { uris: self.uris.deep_view(), position: self.position as int }
    }
}

impl DeepView for CreatePlaylistRequest {
    type V = NewPlaylistView;

    open spec fn deep_view(&self) -> NewPlaylistView {
        NewPlaylistView { name: self.name@, description: self.description@ }
    }
}

impl DeepView for CreatePlaylistResponse {
    type V = CreatedView;

    open spec fn deep_view(&self) -> CreatedView {
        CreatedView { id: self.id@, uri: self.uri@ }
    }
}

impl DeepView for SimplifiedPlaylistObject {
    type V = PlaylistView;

    open spec fn deep_view(&self) -> PlaylistView {
        PlaylistView { name: self.name@, id: self.id@, uri: self.uri@ }
    }
}

impl DeepView for GetUserPlaylistsResponse {
    type V = PageView<PlaylistView>;

    open spec fn deep_view(&self) -> PageView<PlaylistView> {
        PageView { items: self.items.deep_view(), next: self.next.deep_view() }
    }
}

/// The view of a token reply holds its tokens, whole.
pub proof fn token_view_shows_the_tokens(token: SpotifyTokenResponse)
    ensures
        token.deep_view().access_token == token.access_token@,
        token.refresh_token is None ==> token.deep_view().refresh_token is None,
        token.refresh_token matches Some(refresh_token) ==> token.deep_view().refresh_token
            == Some(refresh_token@),
{
}

/// The view of the played tracks holds the name and the URI of each, in order.
pub proof fn played_view_shows_every_play(response: SpotifyRecentlyPlayedResponse)
    ensures
        response.deep_view().len() == response.items@.len(),
        forall|i: int|
            0 <= i < response.items@.len() ==> {
                &&& (#[trigger] response.deep_view()[i]).name == response.items@[i].track.name@
                &&& response.deep_view()[i].uri == response.items@[i].track.uri@
            },
{
}

/// The view of a page of a playlist holds the name and the URI of each track, in order, and
/// the URL of the page behind it, whole.
pub proof fn items_view_shows_every_track(page: PlaylistItemsResponse)
    ensures
        page.deep_view().items.len() == page.items@.len(),
        forall|i: int|
            0 <= i < page.items@.len() ==> {
                &&& (#[trigger] page.deep_view().items[i]).name == page.items@[i].item.name@
                &&& page.deep_view().items[i].uri == page.items@[i].item.uri@
            },
        page.next is None ==> page.deep_view().next is None,
        page.next matches Some(url) ==> page.deep_view().next == Some(url@),
{
}

/// The view of a page of the user's playlists holds the name, the id and the URI of each, in
/// order, and the URL of the page behind it, whole.
pub proof fn playlists_view_shows_every_playlist(page: GetUserPlaylistsResponse)
    ensures
        page.deep_view().items.len() == page.items@.len(),
        forall|i: int|
            0 <= i < page.items@.len() ==> {
                &&& (#[trigger] page.deep_view().items[i]).name == page.items@[i].name@
                &&& page.deep_view().items[i].id == page.items@[i].id@
                &&& page.deep_view().items[i].uri == page.items@[i].uri@
            },
        page.next is None ==> page.deep_view().next is None,
        page.next matches Some(url) ==> page.deep_view().next == Some(url@),
{
}

/// The view of a created playlist holds its id and its URI, whole.
pub proof fn created_view_shows_the_playlist(created: CreatePlaylistResponse)
    ensures
        created.deep_view().id == created.id@,
        created.deep_view().uri == created.uri@,
{
}

/// The view of a playlist to create holds its name and its description, whole.
pub proof fn new_playlist_view_shows_the_playlist(playlist: CreatePlaylistRequest)
    ensures
        playlist.deep_view().name == playlist.name@,
        playlist.deep_view().description == playlist.description@,
{
}

/// The view of tracks to add holds every URI, in order, and the position.
pub proof fn add_tracks_view_shows_every_track(tracks: AddTracksRequest)
    ensures
        tracks.deep_view().position == tracks.position,
        tracks.deep_view().uris.len() == tracks.uris@.len(),
        forall|i: int|
            0 <= i < tracks.uris@.len() ==> #[trigger] tracks.deep_view().uris[i]
                == tracks.uris@[i]@,
{
}

} // verus!
