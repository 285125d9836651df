//! A session: one run of a command, step by step.

use crate::api::{
    CreatePlaylistRequest, CreatePlaylistResponse, GetUserPlaylistsResponse, PlaylistItemsResponse,
    PlaylistView, SimplifiedPlaylistObject, SpotifyRecentlyPlayedResponse, SpotifyTokenResponse,
};
use crate::auth::auth_url;
use crate::model;
use crate::model::{
    ActionView, CommandView, EventView, RecentArgsView, SessionView, StageView, StepView,
};
use crate::pkce;
use crate::pkce::{generate_code_challenge, generate_code_verifier, RandomError};
use crate::playlists::playlists_matching_prefix;
use crate::requests::{
    add_tracks_request, create_playlist_request, delete_playlist_request, follow_playlist_request,
    playlist_items_request, playlist_items_url, recently_played_request, token_exchange_request,
    token_refresh_request, user_playlists_request, HttpRequest, USER_PLAYLISTS_URL,
};
use crate::text::decimal;
use crate::tracks::{
    add_at_the_top, append_page, page_names, recently_played_names, recently_played_uris, UriSet,
};
use vstd::prelude::*;
use vstd::string::*;

verus! {

/// What the `recent` command is asked for.
#[derive(Debug, PartialEq, Eq)]
pub struct RecentArgs {
    /// How many plays to look back.
    pub num_songs: u32,
    /// The name of the playlist to create.
    pub name: Option<String>,
    /// The start of the name of the playlist to find. Goes before `name`.
    pub prefix: Option<String>,
}

/// A command.
#[derive(Debug, PartialEq, Eq)]
pub enum Commands {
    /// Log in through the browser.
    Login,
    /// Add recently played tracks to a playlist.
    Recent(RecentArgs),
    /// Create a playlist and delete it again.
    Refresh,
}

/// What a session asks of the world.
#[derive(Debug, PartialEq, Eq)]
pub enum Action {
    /// Read the saved refresh token.
    ReadRefreshToken,
    /// Make a fresh code verifier.
    CreateVerifier,
    /// Open a page in the browser.
    OpenBrowser(String),
    /// Serve the login callback until a code has come.
    AwaitCallback,
    /// Send a request and read the reply.
    Send(HttpRequest),
    /// Save a refresh token.
    SaveRefreshToken(String),
    /// Stop.
    Finish,
    /// Stop with an error.
    Fail(String),
}

/// What the world answers.
#[derive(Debug, PartialEq, Eq)]
pub enum Event {
    /// The saved refresh token, or that it could not be read.
    SavedToken(Option<String>),
    /// A fresh code verifier.
    Verifier(String),
    /// The browser was opened.
    BrowserOpened,
    /// The authorization code, or that none had come when the callback server stopped.
    Callback(Option<String>),
    /// The tokens, or that the reply held none.
    Token(Option<SpotifyTokenResponse>),
    /// The refresh token was saved.
    TokenSaved,
    RecentlyPlayed(SpotifyRecentlyPlayedResponse),
    UserPlaylists(GetUserPlaylistsResponse),
    PlaylistItems(PlaylistItemsResponse),
    PlaylistCreated(CreatePlaylistResponse),
    /// A request was sent whose reply is not read.
    Sent,
    /// A request could not be sent, its reply could not be read, or a token could not be saved.
    Failed(String),
}

/// The lines that a step prints, and the action that follows them.
#[derive(Debug, PartialEq, Eq)]
pub struct Step {
    pub lines: Vec<String>,
    pub action: Action,
}

/// What a session waits for.
enum Stage {
    ReadingToken,
    CreatingVerifier,
    OpeningBrowser { code_verifier: String },
    AwaitingCallback { code_verifier: String },
    AwaitingToken,
    SavingToken { access_token: String },
    CreatingScratch { access_token: String },
    ListingPlayed { access_token: String },
    ListingPlaylists {
        access_token: String,
        played: UriSet,
        prefix: String,
        found: Vec<SimplifiedPlaylistObject>,
    },
    CreatingPlaylist { access_token: String, played: UriSet },
    ListingSongs {
        access_token: String,
        played: UriSet,
        playlist_id: String,
        songs: Vec<String>,
    },
    AddingTracks { access_token: String, playlist_id: String },
    Closing,
    Ended,
}

/// One run of a command.
pub struct Session {
    command: Commands,
    stage: Stage,
}

impl DeepView for RecentArgs {
    type V = RecentArgsView;

    open spec fn deep_view(&self) -> RecentArgsView {
        RecentArgsView {
            num_songs: self.num_songs as nat,
            name: self.name.deep_view(),
            prefix: self.prefix.deep_view(),
        }
    }
}

impl DeepView for Commands {
    type V = CommandView;

    open spec fn deep_view(&self) -> CommandView {
        match self {
            Commands::Login => CommandView::Login,
            Commands::Recent(args) => CommandView::Recent(args.deep_view()),
            Commands::Refresh => CommandView::Refresh,
        }
    }
}

impl DeepView for Action {
    type V = ActionView;

    open spec fn deep_view(&self) -> ActionView {
        match self {
            Action::ReadRefreshToken => ActionView::ReadRefreshToken,
            Action::CreateVerifier => ActionView::CreateVerifier,
            Action::OpenBrowser(url) => ActionView::OpenBrowser(url@),
            Action::AwaitCallback => ActionView::AwaitCallback,
            Action::Send(request) => ActionView::Send(request.deep_view()),
            Action::SaveRefreshToken(token) => ActionView::SaveRefreshToken(token@),
            Action::Finish => ActionView::Finish,
            Action::Fail(message) => ActionView::Fail(message@),
        }
    }
}

impl DeepView for Event {
    type V = EventView;

    open spec fn deep_view(&self) -> EventView {
        match self {
            Event::SavedToken(token) => EventView::SavedToken(token.deep_view()),
            Event::Verifier(verifier) => EventView::Verifier(verifier@),
            Event::BrowserOpened => EventView::BrowserOpened,
            Event::Callback(code) => EventView::Callback(code.deep_view()),
            Event::Token(token) => EventView::Token(token.deep_view()),
            Event::TokenSaved => EventView::TokenSaved,
            Event::RecentlyPlayed(response) => EventView::RecentlyPlayed(response.deep_view()),
            Event::UserPlaylists(page) => EventView::UserPlaylists(page.deep_view()),
            Event::PlaylistItems(page) => EventView::PlaylistItems(page.deep_view()),
            Event::PlaylistCreated(created) => EventView::PlaylistCreated(created.deep_view()),
            Event::Sent => EventView::Sent,
            Event::Failed(message) => EventView::Failed(message@),
        }
    }
}

impl DeepView for Step {
    type V = StepView;

    open spec fn deep_view(&self) -> StepView {
        StepView { lines: self.lines.deep_view(), action: self.action.deep_view() }
    }
}

impl DeepView for Stage {
    type V = StageView;

    closed spec fn deep_view(&self) -> StageView {
        match self {
            Stage::ReadingToken => StageView::ReadingToken,
            Stage::CreatingVerifier => StageView::CreatingVerifier,
            Stage::OpeningBrowser { code_verifier } => StageView::OpeningBrowser {
                code_verifier: code_verifier@,
            },
            Stage::AwaitingCallback { code_verifier } => StageView::AwaitingCallback {
                code_verifier: code_verifier@,
            },
            Stage::AwaitingToken => StageView::AwaitingToken,
            Stage::SavingToken { access_token } => StageView::SavingToken {
                access_token: access_token@,
            },
            Stage::CreatingScratch { access_token } => StageView::CreatingScratch {
                access_token: access_token@,
            },
            Stage::ListingPlayed { access_token } => StageView::ListingPlayed {
                access_token: access_token@,
            },
            Stage::ListingPlaylists {
                access_token,
                played,
                prefix,
                found,
            } => StageView::ListingPlaylists {
                access_token: access_token@,
                played: played.deep_view(),
                prefix: prefix@,
                found: found.deep_view(),
            },
            Stage::CreatingPlaylist { access_token, played } => StageView::CreatingPlaylist {
                access_token: access_token@,
                played: played.deep_view(),
            },
            Stage::ListingSongs {
                access_token,
                played,
                playlist_id,
                songs,
            } => StageView::ListingSongs {
                access_token: access_token@,
                played: played.deep_view(),
                playlist_id: playlist_id@,
                songs: songs.deep_view(),
            },
            Stage::AddingTracks { access_token, playlist_id } => StageView::AddingTracks {
                access_token: access_token@,
                playlist_id: playlist_id@,
            },
            Stage::Closing => StageView::Closing,
            Stage::Ended => StageView::Ended,
        }
    }
}

impl DeepView for Session {
    type V = SessionView;

    closed spec fn deep_view(&self) -> SessionView {
        SessionView { command: self.command.deep_view(), stage: self.stage.deep_view() }
    }
}

/// A text behind a label.
fn labelled(label: &str, text: &str) -> (line: String)
    ensures
        line@ == label@ + text@,
{
    let mut line = label.to_string();
    line.append(text);
    line
}

/// No lines.
fn no_lines() -> (lines: Vec<String>)
    ensures
        lines.deep_view() == Seq::<Seq<char>>::empty(),
{
    let lines: Vec<String> = Vec::new();
    assert(lines.deep_view() =~= Seq::<Seq<char>>::empty());
    lines
}

/// One line more.
fn add_line(lines: &mut Vec<String>, line: String)
    ensures
        final(lines).deep_view() == old(lines).deep_view().push(line@),
{
    lines.push(line);
    assert(lines.deep_view() =~= old(lines).deep_view().push(line@));
}

/// A single line.
fn one_line(line: String) -> (lines: Vec<String>)
    ensures
        lines.deep_view() == seq![line@],
{
    let mut lines = no_lines();
    add_line(&mut lines, line);
    assert(lines.deep_view() =~= seq![line@]);
    lines
}

/// Nothing is left to do.
fn finish(lines: Vec<String>) -> (result: (Stage, Step))
    ensures
        (result.0.deep_view(), result.1.deep_view()) == model::finished(lines.deep_view()),
{
    (Stage::Ended, Step { lines, action: Action::Finish })
}

/// The session stops with an error.
fn fail(lines: Vec<String>, message: String) -> (result: (Stage, Step))
    ensures
        (result.0.deep_view(), result.1.deep_view()) == model::failed(lines.deep_view(), message@),
{
    (Stage::Ended, Step { lines, action: Action::Fail(message) })
}

/// No token could be had.
fn fail_login(lines: Vec<String>) -> (result: (Stage, Step))
    ensures
        (result.0.deep_view(), result.1.deep_view()) == model::login_failed(lines.deep_view()),
{
    fail(lines, "Failed to get token".to_string())
}

/// Sends a request and waits for the reply in `stage`.
fn send(stage: Stage, lines: Vec<String>, request: HttpRequest) -> (result: (Stage, Step))
    ensures
        (result.0.deep_view(), result.1.deep_view()) == model::sending(
            stage.deep_view(),
            lines.deep_view(),
            request.deep_view(),
        ),
{
    (stage, Step { lines, action: Action::Send(request) })
}

/// The saved refresh token is used where the command allows it, and the browser otherwise.
fn on_saved_token(command: &Commands, saved: Option<String>) -> (result: (Stage, Step))
    ensures
        (result.0.deep_view(), result.1.deep_view()) == model::after_saved_token(
            command.deep_view(),
            saved.deep_view(),
        ),
{
    let use_refresh = match command {
        Commands::Login => false,
        _ => true,
    };
    match saved {
        Some(token) if use_refresh => send(
            Stage::AwaitingToken,
            one_line("Using saved refresh token".to_string()),
            token_refresh_request(token.as_str()),
        ),
        _ => (
            Stage::CreatingVerifier,
            Step {
                lines: one_line("No refresh token, starting browser login".to_string()),
                action: Action::CreateVerifier,
            },
        ),
    }
}

/// The browser is sent to the login page with the challenge of the code verifier.
fn on_verifier(code_verifier: String) -> (result: (Stage, Step))
    ensures
        (result.0.deep_view(), result.1.deep_view()) == model::after_verifier(code_verifier@),
{
    let code_challenge = generate_code_challenge(code_verifier.as_str());
    let url = auth_url(code_challenge.as_str());
    (
        Stage::OpeningBrowser { code_verifier },
        Step { lines: no_lines(), action: Action::OpenBrowser(url) },
    )
}

/// The callback is awaited.
fn on_browser(code_verifier: String) -> (result: (Stage, Step))
    ensures
        (result.0.deep_view(), result.1.deep_view()) == model::after_browser(code_verifier@),
{
    (
        Stage::AwaitingCallback { code_verifier },
        Step {
            lines: one_line("Waiting for Spotify callback...".to_string()),
            action: Action::AwaitCallback,
        },
    )
}

/// The code and the code verifier are traded for a token.
fn on_callback(code_verifier: String, code: Option<String>) -> (result: (Stage, Step))
    ensures
        (result.0.deep_view(), result.1.deep_view()) == model::after_callback(
            code_verifier@,
            code.deep_view(),
        ),
{
    let lines = one_line("Done. Now exchange code for token using POST /api/token".to_string());
    match code {
        Some(code) => send(
            Stage::AwaitingToken,
            lines,
            token_exchange_request(code.as_str(), code_verifier.as_str()),
        ),
        None => fail_login(lines),
    }
}

/// A refresh token is saved before anything else happens.
fn on_token(command: &Commands, token: Option<SpotifyTokenResponse>) -> (result: (Stage, Step))
    ensures
        (result.0.deep_view(), result.1.deep_view()) == model::after_token(
            command.deep_view(),
            token.deep_view(),
        ),
{
    match token {
        None => fail_login(no_lines()),
        Some(token) => {
            let access_token = token.access_token;
            let lines = one_line(labelled("Access token: ", access_token.as_str()));
            match token.refresh_token {
                Some(refresh_token) => (
                    Stage::SavingToken { access_token },
                    Step { lines, action: Action::SaveRefreshToken(refresh_token) },
                ),
                None => start_work(command, access_token, lines),
            }
        },
    }
}

/// The command's own work starts.
fn start_work(command: &Commands, access_token: String, lines: Vec<String>) -> (result: (
    Stage,
    Step,
))
    ensures
        (result.0.deep_view(), result.1.deep_view()) == model::logged_in(
            command.deep_view(),
            access_token@,
            lines.deep_view(),
        ),
{
    match command {
        Commands::Login => finish(lines),
        Commands::Refresh => {
            let scratch = CreatePlaylistRequest {
                name: "TEMP".to_string(),
                description: "TEMP".to_string(),
            };
            let request = create_playlist_request(scratch, access_token.as_str());
            send(Stage::CreatingScratch { access_token }, lines, request)
        },
        Commands::Recent(args) => {
            let mut lines = lines;
            add_line(&mut lines, labelled("Access token: ", access_token.as_str()));
            let request = recently_played_request(args.num_songs, access_token.as_str());
            send(Stage::ListingPlayed { access_token }, lines, request)
        },
    }
}

/// The scratch playlist is deleted as soon as it is there.
fn on_scratch(access_token: String, created: CreatePlaylistResponse) -> (result: (Stage, Step))
    ensures
        (result.0.deep_view(), result.1.deep_view()) == model::after_scratch(
            access_token@,
            created.deep_view(),
        ),
{
    let request = delete_playlist_request(created.uri.as_str(), access_token.as_str());
    send(Stage::Closing, no_lines(), request)
}

/// The playlist is found by its prefix, or created by its name.
fn on_played(
    args: &RecentArgs,
    access_token: String,
    response: SpotifyRecentlyPlayedResponse,
) -> (result: (Stage, Step))
    ensures
        (result.0.deep_view(), result.1.deep_view()) == model::after_played(
            args.deep_view(),
            access_token@,
            response.deep_view(),
        ),
{
    let lines = recently_played_names(&response);
    let played = recently_played_uris(&response);
    match &args.prefix {
        Some(prefix) => {
            let found: Vec<SimplifiedPlaylistObject> = Vec::new();
            assert(found.deep_view() =~= Seq::<PlaylistView>::empty());
            let request = user_playlists_request(USER_PLAYLISTS_URL, access_token.as_str());
            send(
                Stage::ListingPlaylists { access_token, played, prefix: prefix.clone(), found },
                lines,
                request,
            )
        },
        None => match &args.name {
            Some(name) => {
                let playlist = CreatePlaylistRequest {
                    name: name.clone(),
                    description: "NA".to_string(),
                };
                let request = create_playlist_request(playlist, access_token.as_str());
                send(Stage::CreatingPlaylist { access_token, played }, lines, request)
            },
            None => finish(lines),
        },
    }
}

/// The tracks of the chosen playlist are listed.
fn choose_playlist(
    access_token: String,
    played: UriSet,
    playlist_id: String,
    lines: Vec<String>,
) -> (result: (Stage, Step))
    ensures
        (result.0.deep_view(), result.1.deep_view()) == model::chosen(
            access_token@,
            played.deep_view(),
            playlist_id@,
            lines.deep_view(),
        ),
{
    let url = playlist_items_url(playlist_id.as_str());
    let request = playlist_items_request(url.as_str(), access_token.as_str());
    let songs = no_lines();
    send(Stage::ListingSongs { access_token, played, playlist_id, songs }, lines, request)
}

/// The lines that tell of the playlists that match.
fn tell_matches(matches: &Vec<SimplifiedPlaylistObject>) -> (lines: Vec<String>)
    ensures
        lines.deep_view() == model::match_lines(matches.deep_view()),
{
    let ghost all = model::match_lines(matches.deep_view());
    let mut lines = no_lines();
    assert(all.take(0) =~= lines.deep_view());
    let mut index: usize = 0;
    while index < matches.len()
        invariant
            index <= matches.len(),
            all == model::match_lines(matches.deep_view()),
            lines.deep_view() == all.take(index as int),
        decreases matches.len() - index,
    {
        add_line(&mut lines, labelled("MATCH FOUND: ", matches[index].name.as_str()));
        assert(all.take(index + 1) =~= all.take(index as int).push(all[index as int]));
        index = index + 1;
    }
    assert(all.take(index as int) =~= all);
    lines
}

/// The first playlist that matches is chosen; without one nothing is left to do.
fn on_all_playlists(
    access_token: String,
    played: UriSet,
    prefix: &str,
    playlists: Vec<SimplifiedPlaylistObject>,
) -> (result: (Stage, Step))
    ensures
        (result.0.deep_view(), result.1.deep_view()) == model::after_all_playlists(
            access_token@,
            played.deep_view(),
            prefix@,
            playlists.deep_view(),
        ),
{
    let matches = playlists_matching_prefix(playlists, prefix);
    let mut lines = tell_matches(&matches);
    if matches.len() == 0 {
        finish(lines)
    } else {
        assert(matches.deep_view()[0] == matches@[0].deep_view());
        let mut line = labelled("Found ", matches[0].name.as_str());
        line.append(" matching prefix");
        add_line(&mut lines, line);
        choose_playlist(access_token, played, matches[0].id.clone(), lines)
    }
}

/// The pages of the user's playlists are read to the end.
fn on_playlists(
    access_token: String,
    played: UriSet,
    prefix: String,
    found: Vec<SimplifiedPlaylistObject>,
    page: GetUserPlaylistsResponse,
) -> (result: (Stage, Step))
    ensures
        (result.0.deep_view(), result.1.deep_view()) == model::after_playlists(
            access_token@,
            played.deep_view(),
            prefix@,
            found.deep_view(),
            page.deep_view(),
        ),
{
    let ghost all = found.deep_view() + page.deep_view().items;
    let mut found = found;
    let mut items = page.items;
    found.append(&mut items);
    assert(found.deep_view() =~= all);
    match page.next {
        Some(url) => {
            let request = user_playlists_request(url.as_str(), access_token.as_str());
            send(
                Stage::ListingPlaylists { access_token, played, prefix, found },
                no_lines(),
                request,
            )
        },
        None => on_all_playlists(access_token, played, prefix.as_str(), found),
    }
}

/// The playlist that was created is the chosen one.
fn on_created(access_token: String, played: UriSet, created: CreatePlaylistResponse) -> (result: (
    Stage,
    Step,
))
    ensures
        (result.0.deep_view(), result.1.deep_view()) == model::after_created(
            access_token@,
            played.deep_view(),
            created.deep_view(),
        ),
{
    let lines = one_line(labelled("Playlist ID: ", created.uri.as_str()));
    choose_playlist(access_token, played, created.id, lines)
}

/// The tracks that the playlist lacks are added, if there are any.
fn on_all_songs(
    access_token: String,
    played: UriSet,
    playlist_id: String,
    songs: Vec<String>,
    lines: Vec<String>,
) -> (result: (Stage, Step))
    requires
        played.well_formed(),
    ensures
        (result.0.deep_view(), result.1.deep_view()) == model::after_all_songs(
            access_token@,
            played.deep_view(),
            playlist_id@,
            songs.deep_view(),
            lines.deep_view(),
        ),
{
    let mut added = played;
    added.remove_all(&songs);
    let mut lines = lines;
    let mut line = labelled("Adding ", decimal(added.len() as u64).as_str());
    line.append(" songs to playlist");
    add_line(&mut lines, line);
    if added.len() > 0 {
        let request = add_tracks_request(
            playlist_id.as_str(),
            add_at_the_top(added),
            access_token.as_str(),
        );
        send(Stage::AddingTracks { access_token, playlist_id }, lines, request)
    } else {
        finish(lines)
    }
}

/// The pages of the playlist are read to the end.
fn on_songs(
    access_token: String,
    played: UriSet,
    playlist_id: String,
    songs: Vec<String>,
    page: PlaylistItemsResponse,
) -> (result: (Stage, Step))
    requires
        played.well_formed(),
    ensures
        (result.0.deep_view(), result.1.deep_view()) == model::after_songs(
            access_token@,
            played.deep_view(),
            playlist_id@,
            songs.deep_view(),
            page.deep_view(),
        ),
{
    let lines = page_names(&page);
    let mut songs = songs;
    append_page(&mut songs, &page);
    match page.next {
        Some(url) => {
            let request = playlist_items_request(url.as_str(), access_token.as_str());
            send(Stage::ListingSongs { access_token, played, playlist_id, songs }, lines, request)
        },
        None => on_all_songs(access_token, played, playlist_id, songs, lines),
    }
}

/// The playlist is followed once the tracks are in it.
fn on_added(access_token: String, playlist_id: String) -> (result: (Stage, Step))
    ensures
        (result.0.deep_view(), result.1.deep_view()) == model::after_added(
            access_token@,
            playlist_id@,
        ),
{
    let request = follow_playlist_request(playlist_id.as_str(), access_token.as_str());
    send(Stage::Closing, no_lines(), request)
}

impl Session {
    /// No played track is listed twice, and the session does only what its command asks for.
    pub open spec fn well_formed(&self) -> bool {
        self.deep_view().well_formed()
    }

    /// Starts a command.
    pub fn start(command: Commands) -> (started: (Session, Step))
        ensures
            started.0.well_formed(),
            (started.0.deep_view(), started.1.deep_view()) == model::first(command.deep_view()),
    {
        (
            Session { command, stage: Stage::ReadingToken },
            Step { lines: no_lines(), action: Action::ReadRefreshToken },
        )
    }

    /// Whether the session waits for an event of this kind.
    pub fn awaits(&self, event: &Event) -> (result: bool)
        ensures
            result == self.deep_view().awaits(event.deep_view()),
    {
        match (&self.stage, event) {
            (Stage::ReadingToken, Event::SavedToken(_)) => true,
            (Stage::CreatingVerifier, Event::Verifier(_)) => true,
            (Stage::OpeningBrowser { .. }, Event::BrowserOpened) => true,
            (Stage::AwaitingCallback { .. }, Event::Callback(_)) => true,
            (Stage::AwaitingToken, Event::Token(_)) => true,
            (Stage::SavingToken { .. }, Event::TokenSaved) => true,
            (Stage::CreatingScratch { .. }, Event::PlaylistCreated(_)) => true,
            (Stage::ListingPlayed { .. }, Event::RecentlyPlayed(_)) => true,
            (Stage::ListingPlaylists { .. }, Event::UserPlaylists(_)) => true,
            (Stage::CreatingPlaylist { .. }, Event::PlaylistCreated(_)) => true,
            (Stage::ListingSongs { .. }, Event::PlaylistItems(_)) => true,
            (Stage::AddingTracks { .. }, Event::Sent) => true,
            (Stage::Closing, Event::Sent) => true,
            (Stage::ReadingToken, Event::Failed(_)) => false,
            (Stage::CreatingVerifier, Event::Failed(_)) => false,
            (Stage::OpeningBrowser { .. }, Event::Failed(_)) => false,
            (Stage::AwaitingCallback { .. }, Event::Failed(_)) => false,
            (Stage::Ended, Event::Failed(_)) => false,
            (_, Event::Failed(_)) => true,
            _ => false,
        }
    }

    /// Whether the session waits for a code verifier.
    pub fn awaits_verifier(&self) -> (result: bool)
        ensures
            result == (self.deep_view().stage is CreatingVerifier),
    {
        match &self.stage {
            Stage::CreatingVerifier => true,
            _ => false,
        }
    }

    /// Takes the event that the session waits for, and gives what to print and do next.
    pub fn step(self, event: Event) -> (result: (Session, Step))
        requires
            self.well_formed(),
            self.deep_view().awaits(event.deep_view()),
        ensures
            result.0.well_formed(),
            (result.0.deep_view(), result.1.deep_view()) == model::next(
                self.deep_view(),
                event.deep_view(),
            ),
    {
        proof {
            model::next_keeps_well_formed(self.deep_view(), event.deep_view());
        }
        let command = self.command;
        let (stage, step) = match (self.stage, event) {
            (_, Event::Failed(message)) => fail(no_lines(), message),
            (Stage::ReadingToken, Event::SavedToken(saved)) => on_saved_token(&command, saved),
            (Stage::CreatingVerifier, Event::Verifier(code_verifier)) => on_verifier(
                code_verifier,
            ),
            (Stage::OpeningBrowser { code_verifier }, Event::BrowserOpened) => on_browser(
                code_verifier,
            ),
            (Stage::AwaitingCallback { code_verifier }, Event::Callback(code)) => on_callback(
                code_verifier,
                code,
            ),
            (Stage::AwaitingToken, Event::Token(token)) => on_token(&command, token),
            (Stage::SavingToken { access_token }, Event::TokenSaved) => start_work(
                &command,
                access_token,
                no_lines(),
            ),
            (
                Stage::CreatingScratch { access_token },
                Event::PlaylistCreated(created),
            ) => on_scratch(access_token, created),
            (Stage::ListingPlayed { access_token }, Event::RecentlyPlayed(response)) => {
                match &command {
                    Commands::Recent(args) => on_played(args, access_token, response),
                    _ => vstd::pervasive::unreached(),
                }
            },
            (
                Stage::ListingPlaylists { access_token, played, prefix, found },
                Event::UserPlaylists(page),
            ) => on_playlists(access_token, played, prefix, found, page),
            (
                Stage::CreatingPlaylist { access_token, played },
                Event::PlaylistCreated(created),
            ) => on_created(access_token, played, created),
            (
                Stage::ListingSongs { access_token, played, playlist_id, songs },
                Event::PlaylistItems(page),
            ) => on_songs(access_token, played, playlist_id, songs, page),
            (Stage::AddingTracks { access_token, playlist_id }, Event::Sent) => on_added(
                access_token,
                playlist_id,
            ),
            (Stage::Closing, Event::Sent) => finish(no_lines()),
            _ => vstd::pervasive::unreached(),
        };
        (Session { command, stage }, step)
    }

    /// Goes on with the code verifier that the session waits for, or gives back the error that
    /// came in its place.
    pub fn take_verifier(self, verifier: Result<String, RandomError>) -> (result: Result<
        (Session, Step),
        RandomError,
    >)
        requires
            self.well_formed(),
            self.deep_view().stage is CreatingVerifier,
        ensures
            match verifier {
                Ok(code_verifier) => {
                    &&& result matches Ok((session, step))
                    &&& session.well_formed()
                    &&& (session.deep_view(), step.deep_view()) == model::next(
                        self.deep_view(),
                        EventView::Verifier(code_verifier@),
                    )
                },
                Err(error) => result == Err::<(Session, Step), RandomError>(error),
            },
    {
        match verifier {
            Ok(code_verifier) => Ok(self.step(Event::Verifier(code_verifier))),
            Err(error) => Err(error),
        }
    }

    /// Makes a fresh code verifier for the session that waits for one, and goes on with it.
    ///
    /// Which verifier it is, and when the operating system gives no random bytes, is left open.
    pub fn create_verifier(self) -> (result: Result<(Session, Step), RandomError>)
        requires
            self.well_formed(),
            self.deep_view().stage is CreatingVerifier,
        ensures
            result matches Ok((session, step)) ==> {
                &&& session.well_formed()
                &&& exists|bytes: Seq<u8>|
                    bytes.len() == 32 && (session.deep_view(), step.deep_view()) == model::next(
                        self.deep_view(),
                        EventView::Verifier(#[trigger] pkce::base64_url(bytes)),
                    )
            },
    {
        self.take_verifier(generate_code_verifier())
    }
}

/// The view of a command holds what it was asked for.
pub proof fn command_view_shows_the_command(command: Commands)
    ensures
        command is Login ==> command.deep_view() is Login,
        command is Refresh ==> command.deep_view() is Refresh,
        command matches Commands::Recent(args) ==> {
            &&& command.deep_view() matches CommandView::Recent(shown)
            &&& shown.num_songs == args.num_songs
            &&& args.name is None ==> shown.name is None
            &&& args.name matches Some(name) ==> shown.name == Some(name@)
            &&& args.prefix is None ==> shown.prefix is None
            &&& args.prefix matches Some(prefix) ==> shown.prefix == Some(prefix@)
        },
{
}

/// The view of a step holds every line, in order, and the whole action.
pub proof fn step_view_shows_the_step(step: Step)
    ensures
        step.deep_view().lines.len() == step.lines@.len(),
        forall|i: int|
            0 <= i < step.lines@.len() ==> #[trigger] step.deep_view().lines[i] == step.lines@[i]@,
        match step.action {
            Action::ReadRefreshToken => step.deep_view().action is ReadRefreshToken,
            Action::CreateVerifier => step.deep_view().action is CreateVerifier,
            Action::OpenBrowser(url) => step.deep_view().action == ActionView::OpenBrowser(url@),
            Action::AwaitCallback => step.deep_view().action is AwaitCallback,
            Action::Send(request) => step.deep_view().action == ActionView::Send(
                request.deep_view(),
            ),
            Action::SaveRefreshToken(token) => step.deep_view().action
                == ActionView::SaveRefreshToken(token@),
            Action::Finish => step.deep_view().action is Finish,
            Action::Fail(message) => step.deep_view().action == ActionView::Fail(message@),
        },
{
}

/// The view of an event holds all that came.
pub proof fn event_view_shows_the_event(event: Event)
    ensures
        match event {
            Event::SavedToken(None) => event.deep_view() == EventView::SavedToken(None),
            Event::SavedToken(Some(token)) => event.deep_view() == EventView::SavedToken(
                Some(token@),
            ),
            Event::Verifier(verifier) => event.deep_view() == EventView::Verifier(verifier@),
            Event::BrowserOpened => event.deep_view() is BrowserOpened,
            Event::Callback(None) => event.deep_view() == EventView::Callback(None),
            Event::Callback(Some(code)) => event.deep_view() == EventView::Callback(Some(code@)),
            Event::Token(None) => event.deep_view() == EventView::Token(None),
            Event::Token(Some(token)) => event.deep_view() == EventView::Token(
                Some(token.deep_view()),
            ),
            Event::TokenSaved => event.deep_view() is TokenSaved,
            Event::RecentlyPlayed(response) => event.deep_view() == EventView::RecentlyPlayed(
                response.deep_view(),
            ),
            Event::UserPlaylists(page) => event.deep_view() == EventView::UserPlaylists(
                page.deep_view(),
            ),
            Event::PlaylistItems(page) => event.deep_view() == EventView::PlaylistItems(
                page.deep_view(),
            ),
            Event::PlaylistCreated(created) => event.deep_view() == EventView::PlaylistCreated(
                created.deep_view(),
            ),
            Event::Sent => event.deep_view() is Sent,
            Event::Failed(message) => event.deep_view() == EventView::Failed(message@),
        },
{
}

} // verus!
