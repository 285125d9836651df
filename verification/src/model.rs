//! A session as a state machine: what it does next, given what came back.
//!
//! A session performs one action at a time and waits for its event. `first` is what a command
//! does first, and `next` what follows from a state and an event.

use crate::api::{
    CreatedView, NewPlaylistView, PageView, PlaylistView, TokenView, TrackView,
};
use crate::requests::{Reply, RequestView, USER_PLAYLISTS_URL};
use crate::{auth, pkce, playlists, requests, text, tracks};
use vstd::prelude::*;
use vstd::string::*;

verus! {

/// What the `recent` command is asked for.
pub struct RecentArgsView {
    pub num_songs: nat,
    pub name: Option<Seq<char>>,
    pub prefix: Option<Seq<char>>,
}

/// A command.
pub enum CommandView {
    Login,
    Recent(RecentArgsView),
    Refresh,
}

/// What a session asks of the world.
pub enum ActionView {
    /// Read the saved refresh token.
    ReadRefreshToken,
    /// Make a fresh code verifier.
    CreateVerifier,
    /// Open a page in the browser.
    OpenBrowser(Seq<char>),
    /// Serve the login callback until a code has come.
    AwaitCallback,
    /// Send a request and read the reply.
    Send(RequestView),
    /// Save a refresh token.
    SaveRefreshToken(Seq<char>),
    /// Stop.
    Finish,
    /// Stop with an error.
    Fail(Seq<char>),
}

/// What the world answers.
pub enum EventView {
    /// The saved refresh token, or that it could not be read.
    SavedToken(Option<Seq<char>>),
    Verifier(Seq<char>),
    BrowserOpened,
    /// The authorization code, or that none had come when the callback server stopped.
    Callback(Option<Seq<char>>),
    /// The tokens, or that the reply held none.
    Token(Option<TokenView>),
    TokenSaved,
    RecentlyPlayed(Seq<TrackView>),
    UserPlaylists(PageView<PlaylistView>),
    PlaylistItems(PageView<TrackView>),
    PlaylistCreated(CreatedView),
    /// A request was sent whose reply is not read.
    Sent,
    /// A request could not be sent, its reply could not be read, or a token could not be saved.
    Failed(Seq<char>),
}

/// What a session waits for.
pub enum StageView {
    ReadingToken,
    CreatingVerifier,
    OpeningBrowser { code_verifier: Seq<char> },
    AwaitingCallback { code_verifier: Seq<char> },
    AwaitingToken,
    SavingToken { access_token: Seq<char> },
    /// The scratch playlist of the `refresh` command is being created.
    CreatingScratch { access_token: Seq<char> },
    ListingPlayed { access_token: Seq<char> },
    ListingPlaylists {
        access_token: Seq<char>,
        played: Seq<Seq<char>>,
        prefix: Seq<char>,
        found: Seq<PlaylistView>,
    },
    CreatingPlaylist { access_token: Seq<char>, played: Seq<Seq<char>> },
    ListingSongs {
        access_token: Seq<char>,
        played: Seq<Seq<char>>,
        playlist_id: Seq<char>,
        songs: Seq<Seq<char>>,
    },
    AddingTracks { access_token: Seq<char>, playlist_id: Seq<char> },
    /// The last request is under way.
    Closing,
    Ended,
}

/// A command and how far it has come.
pub struct SessionView {
    pub command: CommandView,
    pub stage: StageView,
}

/// The lines that a step prints, and the action that follows them.
pub struct StepView {
    pub lines: Seq<Seq<char>>,
    pub action: ActionView,
}

/// The stage behind a step, and the step.
pub type Outcome = (StageView, StepView);

impl StageView {
    /// Whether the stage waits for something that can fail: a request or the saving of a token.
    pub open spec fn can_fail(self) -> bool {
        match self {
            StageView::ReadingToken => false,
            StageView::CreatingVerifier => false,
            StageView::OpeningBrowser { .. } => false,
            StageView::AwaitingCallback { .. } => false,
            StageView::Ended => false,
            _ => true,
        }
    }

    /// Whether an event is one that the stage waits for.
    pub open spec fn awaits(self, event: EventView) -> bool {
        if event is Failed {
            self.can_fail()
        } else {
            match self {
                StageView::ReadingToken => event is SavedToken,
                StageView::CreatingVerifier => event is Verifier,
                StageView::OpeningBrowser { .. } => event is BrowserOpened,
                StageView::AwaitingCallback { .. } => event is Callback,
                StageView::AwaitingToken => event is Token,
                StageView::SavingToken { .. } => event is TokenSaved,
                StageView::CreatingScratch { .. } => event is PlaylistCreated,
                StageView::ListingPlayed { .. } => event is RecentlyPlayed,
                StageView::ListingPlaylists { .. } => event is UserPlaylists,
                StageView::CreatingPlaylist { .. } => event is PlaylistCreated,
                StageView::ListingSongs { .. } => event is PlaylistItems,
                StageView::AddingTracks { .. } => event is Sent,
                StageView::Closing => event is Sent,
                StageView::Ended => false,
            }
        }
    }
}

impl SessionView {
    /// Whether an event is one that the session waits for.
    pub open spec fn awaits(self, event: EventView) -> bool {
        self.stage.awaits(event)
    }

    /// The invariant of every session: it does only what its command asks for, and lists no
    /// played track twice.
    pub open spec fn well_formed(self) -> bool {
        match self.stage {
            StageView::CreatingScratch { .. } => self.command is Refresh,
            StageView::ListingPlayed { .. } => self.command is Recent,
            StageView::ListingPlaylists { played, prefix, .. } => {
                &&& self.command matches CommandView::Recent(args)
                &&& args.prefix == Some(prefix)
                &&& played.no_duplicates()
            },
            StageView::CreatingPlaylist { played, .. } => {
                &&& self.command matches CommandView::Recent(args)
                &&& args.prefix is None
                &&& args.name is Some
                &&& played.no_duplicates()
            },
            StageView::ListingSongs { played, .. } => {
                &&& self.command is Recent
                &&& played.no_duplicates()
            },
            StageView::AddingTracks { .. } => self.command is Recent,
            StageView::Closing => !(self.command is Login),
            _ => true,
        }
    }
}

/// Whether a command logs in with a saved refresh token, where there is one.
pub open spec fn uses_saved_token(command: CommandView) -> bool {
    !(command is Login)
}

/// Nothing is left to do.
pub open spec fn finished(lines: Seq<Seq<char>>) -> Outcome {
    (StageView::Ended, StepView { lines, action: ActionView::Finish })
}

/// The session stops with an error.
pub open spec fn failed(lines: Seq<Seq<char>>, message: Seq<char>) -> Outcome {
    (StageView::Ended, StepView { lines, action: ActionView::Fail(message) })
}

/// No token could be had.
pub open spec fn login_failed(lines: Seq<Seq<char>>) -> Outcome {
    failed(lines, "Failed to get token"@)
}

/// Sends a request and waits for the reply in `stage`.
pub open spec fn sending(
    stage: StageView,
    lines: Seq<Seq<char>>,
    request: RequestView,
) -> Outcome {
    (stage, StepView { lines, action: ActionView::Send(request) })
}

/// The line that shows the access token.
pub open spec fn access_token_line(access_token: Seq<char>) -> Seq<char> {
    "Access token: "@ + access_token
}

/// What a command starts with.
pub open spec fn first(command: CommandView) -> (SessionView, StepView) {
    (
        SessionView { command, stage: StageView::ReadingToken },
        StepView { lines: seq![], action: ActionView::ReadRefreshToken },
    )
}

/// The saved refresh token is used where the command allows it, and the browser otherwise.
pub open spec fn after_saved_token(command: CommandView, saved: Option<Seq<char>>) -> Outcome {
    match saved {
        Some(token) if uses_saved_token(command) => sending(
            StageView::AwaitingToken,
            seq!["Using saved refresh token"@],
            requests::token_refresh_view(token),
        ),
        _ => (
            StageView::CreatingVerifier,
            StepView {
                lines: seq!["No refresh token, starting browser login"@],
                action: ActionView::CreateVerifier,
            },
        ),
    }
}

/// The browser is sent to the login page with the challenge of the code verifier.
pub open spec fn after_verifier(code_verifier: Seq<char>) -> Outcome {
    (
        StageView::OpeningBrowser { code_verifier },
        StepView {
            lines: seq![],
            action: ActionView::OpenBrowser(auth::auth_url_view(pkce::code_challenge(code_verifier))),
        },
    )
}

/// The callback is awaited.
pub open spec fn after_browser(code_verifier: Seq<char>) -> Outcome {
    (
        StageView::AwaitingCallback { code_verifier },
        StepView {
            lines: seq!["Waiting for Spotify callback..."@],
            action: ActionView::AwaitCallback,
        },
    )
}

/// The code and the code verifier are traded for a token.
pub open spec fn after_callback(code_verifier: Seq<char>, code: Option<Seq<char>>) -> Outcome {
    let lines = seq!["Done. Now exchange code for token using POST /api/token"@];
    match code {
        Some(code) => sending(
            StageView::AwaitingToken,
            lines,
            requests::token_exchange_view(code, code_verifier),
        ),
        None => login_failed(lines),
    }
}

/// A refresh token is saved before anything else happens.
pub open spec fn after_token(command: CommandView, token: Option<TokenView>) -> Outcome {
    match token {
        None => login_failed(seq![]),
        Some(token) => {
            let lines = seq![access_token_line(token.access_token)];
            match token.refresh_token {
                Some(refresh_token) => (
                    StageView::SavingToken { access_token: token.access_token },
                    StepView { lines, action: ActionView::SaveRefreshToken(refresh_token) },
                ),
                None => logged_in(command, token.access_token, lines),
            }
        },
    }
}

/// The command's own work starts.
pub open spec fn logged_in(
    command: CommandView,
    access_token: Seq<char>,
    lines: Seq<Seq<char>>,
) -> Outcome {
    match command {
        CommandView::Login => finished(lines),
        CommandView::Refresh => sending(
            StageView::CreatingScratch { access_token },
            lines,
            requests::create_playlist_view(
                NewPlaylistView { name: "TEMP"@, description: "TEMP"@ },
                access_token,
            ),
        ),
        CommandView::Recent(args) => sending(
            StageView::ListingPlayed { access_token },
            lines.push(access_token_line(access_token)),
            requests::recently_played_view(args.num_songs, access_token),
        ),
    }
}

/// The scratch playlist is deleted as soon as it is there.
pub open spec fn after_scratch(access_token: Seq<char>, created: CreatedView) -> Outcome {
    sending(StageView::Closing, seq![], requests::delete_playlist_view(created.uri, access_token))
}

/// The playlist is found by its prefix, or created by its name.
pub open spec fn after_played(
    args: RecentArgsView,
    access_token: Seq<char>,
    tracks: Seq<TrackView>,
) -> Outcome {
    let lines = tracks::names_of(tracks);
    let played = tracks::distinct(tracks::uris_of(tracks));
    match (args.prefix, args.name) {
        (Some(prefix), _) => sending(
            StageView::ListingPlaylists { access_token, played, prefix, found: seq![] },
            lines,
            requests::page_view(USER_PLAYLISTS_URL@, Reply::UserPlaylists, access_token),
        ),
        (None, Some(name)) => sending(
            StageView::CreatingPlaylist { access_token, played },
            lines,
            requests::create_playlist_view(NewPlaylistView { name, description: "NA"@ }, access_token),
        ),
        (None, None) => finished(lines),
    }
}

/// The tracks of the chosen playlist are listed.
pub open spec fn chosen(
    access_token: Seq<char>,
    played: Seq<Seq<char>>,
    playlist_id: Seq<char>,
    lines: Seq<Seq<char>>,
) -> Outcome {
    sending(
        StageView::ListingSongs { access_token, played, playlist_id, songs: seq![] },
        lines,
        requests::page_view(requests::playlist_items_url_view(playlist_id), Reply::PlaylistItems, access_token),
    )
}

/// The lines that tell of the playlists that match.
pub open spec fn match_lines(matches: Seq<PlaylistView>) -> Seq<Seq<char>> {
    matches.map_values(|playlist: PlaylistView| "MATCH FOUND: "@ + playlist.name)
}

/// The first playlist that matches is chosen; without one nothing is left to do.
pub open spec fn after_all_playlists(
    access_token: Seq<char>,
    played: Seq<Seq<char>>,
    prefix: Seq<char>,
    playlists: Seq<PlaylistView>,
) -> Outcome {
    let matches = playlists::matching(playlists, prefix);
    let lines = match_lines(matches);
    if matches.len() == 0 {
        finished(lines)
    } else {
        chosen(
            access_token,
            played,
            matches[0].id,
            lines.push("Found "@ + matches[0].name + " matching prefix"@),
        )
    }
}

/// The pages of the user's playlists are read to the end.
pub open spec fn after_playlists(
    access_token: Seq<char>,
    played: Seq<Seq<char>>,
    prefix: Seq<char>,
    found: Seq<PlaylistView>,
    page: PageView<PlaylistView>,
) -> Outcome {
    let found = found + page.items;
    match page.next {
        Some(url) => sending(
            StageView::ListingPlaylists { access_token, played, prefix, found },
            seq![],
            requests::page_view(url, Reply::UserPlaylists, access_token),
        ),
        None => after_all_playlists(access_token, played, prefix, found),
    }
}

/// The playlist that was created is the chosen one.
pub open spec fn after_created(
    access_token: Seq<char>,
    played: Seq<Seq<char>>,
    created: CreatedView,
) -> Outcome {
    chosen(access_token, played, created.id, seq!["Playlist ID: "@ + created.uri])
}

/// The tracks that the playlist lacks are added, if there are any.
pub open spec fn after_all_songs(
    access_token: Seq<char>,
    played: Seq<Seq<char>>,
    playlist_id: Seq<char>,
    songs: Seq<Seq<char>>,
    lines: Seq<Seq<char>>,
) -> Outcome {
    let added = tracks::missing(played, songs);
    let lines = lines.push("Adding "@ + text::decimal_digits(added.len()) + " songs to playlist"@);
    if added.len() == 0 {
        finished(lines)
    } else {
        sending(
            StageView::AddingTracks { access_token, playlist_id },
            lines,
            requests::add_tracks_view(playlist_id, tracks::at_the_top(added), access_token),
        )
    }
}

/// The pages of the playlist are read to the end.
pub open spec fn after_songs(
    access_token: Seq<char>,
    played: Seq<Seq<char>>,
    playlist_id: Seq<char>,
    songs: Seq<Seq<char>>,
    page: PageView<TrackView>,
) -> Outcome {
    let songs = songs + tracks::uris_of(page.items);
    let lines = tracks::names_of(page.items);
    match page.next {
        Some(url) => sending(
            StageView::ListingSongs { access_token, played, playlist_id, songs },
            lines,
            requests::page_view(url, Reply::PlaylistItems, access_token),
        ),
        None => after_all_songs(access_token, played, playlist_id, songs, lines),
    }
}

/// The playlist is followed once the tracks are in it.
pub open spec fn after_added(access_token: Seq<char>, playlist_id: Seq<char>) -> Outcome {
    sending(StageView::Closing, seq![], requests::follow_playlist_view(playlist_id, access_token))
}

/// What follows from a stage and an event that it waits for.
pub open spec fn outcome(command: CommandView, stage: StageView, event: EventView) -> Outcome {
    match (stage, event) {
        (_, EventView::Failed(message)) => failed(seq![], message),
        (StageView::ReadingToken, EventView::SavedToken(saved)) => after_saved_token(
            command,
            saved,
        ),
        (StageView::CreatingVerifier, EventView::Verifier(code_verifier)) => after_verifier(
            code_verifier,
        ),
        (StageView::OpeningBrowser { code_verifier }, EventView::BrowserOpened) => after_browser(
            code_verifier,
        ),
        (
            StageView::AwaitingCallback { code_verifier },
            EventView::Callback(code),
        ) => after_callback(code_verifier, code),
        (StageView::AwaitingToken, EventView::Token(token)) => after_token(command, token),
        (StageView::SavingToken { access_token }, EventView::TokenSaved) => logged_in(
            command,
            access_token,
            seq![],
        ),
        (
            StageView::CreatingScratch { access_token },
            EventView::PlaylistCreated(created),
        ) => after_scratch(access_token, created),
        (StageView::ListingPlayed { access_token }, EventView::RecentlyPlayed(tracks)) => {
            match command {
                CommandView::Recent(args) => after_played(args, access_token, tracks),
                _ => arbitrary(),
            }
        },
        (
            StageView::ListingPlaylists { access_token, played, prefix, found },
            EventView::UserPlaylists(page),
        ) => after_playlists(access_token, played, prefix, found, page),
        (
            StageView::CreatingPlaylist { access_token, played },
            EventView::PlaylistCreated(created),
        ) => after_created(access_token, played, created),
        (
            StageView::ListingSongs { access_token, played, playlist_id, songs },
            EventView::PlaylistItems(page),
        ) => after_songs(access_token, played, playlist_id, songs, page),
        (
            StageView::AddingTracks { access_token, playlist_id },
            EventView::Sent,
        ) => after_added(access_token, playlist_id),
        (StageView::Closing, EventView::Sent) => finished(seq![]),
        _ => arbitrary(),
    }
}

/// What follows from a session and an event that it waits for.
pub open spec fn next(session: SessionView, event: EventView) -> (SessionView, StepView) {
    let (stage, step) = outcome(session.command, session.stage, event);
    (SessionView { command: session.command, stage }, step)
}

/// Every session starts with the invariant.
pub proof fn first_is_well_formed(command: CommandView)
    ensures
        first(command).0.well_formed(),
{
}

/// Every step keeps the invariant.
pub proof fn next_keeps_well_formed(session: SessionView, event: EventView)
    requires
        session.well_formed(),
        session.awaits(event),
    ensures
        next(session, event).0.well_formed(),
{
    match (session.stage, event) {
        (StageView::ListingPlayed { .. }, EventView::RecentlyPlayed(tracks)) => {
            tracks::distinct_keeps_each_item_once(tracks::uris_of(tracks));
        },
        _ => {},
    }
}

} // verus!
