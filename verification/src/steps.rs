//! What each event leads to, whatever the session has gathered before: the lines that are
//! printed, the request that goes out, part by part, and what is kept for later.

use crate::api::{CreatedView, PageView, PlaylistView, TokenView, TrackView};
use crate::model::{ActionView, CommandView, EventView, RecentArgsView, SessionView, StageView};
use crate::requests::{BodyView, Method, Reply};
use crate::{auth, model, pkce, playlists, text, tracks};
use vstd::prelude::*;
use vstd::string::*;

verus! {

/// Every command starts by reading the saved refresh token, and prints nothing before.
pub proof fn commands_start_with_the_saved_token(command: CommandView)
    ensures
        model::first(command).0.command == command,
        model::first(command).0.stage is ReadingToken,
        model::first(command).1.lines.len() == 0,
        model::first(command).1.action is ReadRefreshToken,
{
}

/// With a saved token, every command but `login` asks for an access token in return for it,
/// whole.
pub proof fn saved_token_is_traded(session: SessionView, token: Seq<char>)
    requires
        session.stage is ReadingToken,
        !(session.command is Login),
    ensures
        session.awaits(EventView::SavedToken(Some(token))),
        ({
            let (after, step) = model::next(session, EventView::SavedToken(Some(token)));
            &&& after.command == session.command
            &&& after.stage is AwaitingToken
            &&& step.lines == seq!["Using saved refresh token"@]
            &&& step.action matches ActionView::Send(request)
            &&& request.method == Method::Post
            &&& request.url == "https://accounts.spotify.com/api/token"@
            &&& request.authorization is None
            &&& request.query.len() == 0
            &&& request.reply == Reply::Token
            &&& request.report_status
            &&& request.body matches BodyView::Form(fields)
            &&& fields.len() == 3
            &&& fields[0] == ("grant_type"@, "refresh_token"@)
            &&& fields[1] == ("refresh_token"@, token)
            &&& fields[2] == ("client_id"@, "029dec42942148988a90b86aa92756dd"@)
        }),
{
}

/// Without a saved token, and for `login` in any case, a code verifier is made.
pub proof fn browser_login_starts_with_a_verifier(session: SessionView, saved: Option<Seq<char>>)
    requires
        session.stage is ReadingToken,
        session.command is Login || saved is None,
    ensures
        session.awaits(EventView::SavedToken(saved)),
        ({
            let (after, step) = model::next(session, EventView::SavedToken(saved));
            &&& after.command == session.command
            &&& after.stage is CreatingVerifier
            &&& step.lines == seq!["No refresh token, starting browser login"@]
            &&& step.action is CreateVerifier
        }),
{
}

/// The login page that is opened carries the challenge of the whole verifier, and the verifier
/// is kept, whole.
pub proof fn verifier_is_kept_and_challenged(session: SessionView, code_verifier: Seq<char>)
    requires
        session.stage is CreatingVerifier,
    ensures
        session.awaits(EventView::Verifier(code_verifier)),
        ({
            let (after, step) = model::next(session, EventView::Verifier(code_verifier));
            &&& after.command == session.command
            &&& after.stage == (StageView::OpeningBrowser { code_verifier })
            &&& step.lines.len() == 0
            &&& step.action == ActionView::OpenBrowser(
                "https://accounts.spotify.com/authorize?client_id=029dec42942148988a90b86aa92756dd&response_type=code&redirect_uri=http%3A%2F%2F127.0.0.1%3A8888%2Fcallback&scope=user-read-recently-played%20playlist-modify-public%20playlist-read-private&code_challenge="@
                    + pkce::base64_url(pkce::sha256(vstd::utf8::encode_utf8(code_verifier))@)
                    + "&code_challenge_method=S256"@,
            )
        }),
{
    auth::login_page_is_fixed_around_the_challenge(
        pkce::base64_url(pkce::sha256(vstd::utf8::encode_utf8(code_verifier))@),
    );
}

/// Once the browser is open, the callback is awaited, and the verifier is still kept.
pub proof fn callback_is_awaited(session: SessionView, code_verifier: Seq<char>)
    requires
        session.stage == (StageView::OpeningBrowser { code_verifier }),
    ensures
        session.awaits(EventView::BrowserOpened),
        ({
            let (after, step) = model::next(session, EventView::BrowserOpened);
            &&& after.command == session.command
            &&& after.stage == (StageView::AwaitingCallback { code_verifier })
            &&& step.lines == seq!["Waiting for Spotify callback..."@]
            &&& step.action is AwaitCallback
        }),
{
}

/// The whole code that the callback brought is sent, with the whole verifier that was kept.
pub proof fn code_is_traded_with_the_verifier(
    session: SessionView,
    code_verifier: Seq<char>,
    code: Seq<char>,
)
    requires
        session.stage == (StageView::AwaitingCallback { code_verifier }),
    ensures
        session.awaits(EventView::Callback(Some(code))),
        ({
            let (after, step) = model::next(session, EventView::Callback(Some(code)));
            &&& after.command == session.command
            &&& after.stage is AwaitingToken
            &&& step.lines == seq!["Done. Now exchange code for token using POST /api/token"@]
            &&& step.action matches ActionView::Send(request)
            &&& request.method == Method::Post
            &&& request.url == "https://accounts.spotify.com/api/token"@
            &&& request.authorization is None
            &&& request.query.len() == 0
            &&& request.reply == Reply::Token
            &&& request.report_status
            &&& request.body matches BodyView::Form(fields)
            &&& fields.len() == 5
            &&& fields[0] == ("grant_type"@, "authorization_code"@)
            &&& fields[1] == ("code"@, code)
            &&& fields[2] == ("redirect_uri"@, "http://127.0.0.1:8888/callback"@)
            &&& fields[3] == ("client_id"@, "029dec42942148988a90b86aa92756dd"@)
            &&& fields[4] == ("code_verifier"@, code_verifier)
        }),
{
}

/// Without a code the login fails.
pub proof fn no_code_fails_the_login(session: SessionView)
    requires
        session.stage is AwaitingCallback,
    ensures
        session.awaits(EventView::Callback(None)),
        ({
            let (after, step) = model::next(session, EventView::Callback(None));
            &&& after.command == session.command
            &&& after.stage is Ended
            &&& step.lines == seq!["Done. Now exchange code for token using POST /api/token"@]
            &&& step.action == ActionView::Fail("Failed to get token"@)
        }),
{
}

/// Without a token the login fails.
pub proof fn no_token_fails_the_login(session: SessionView)
    requires
        session.stage is AwaitingToken,
    ensures
        session.awaits(EventView::Token(None)),
        ({
            let (after, step) = model::next(session, EventView::Token(None));
            &&& after.command == session.command
            &&& after.stage is Ended
            &&& step.lines.len() == 0
            &&& step.action == ActionView::Fail("Failed to get token"@)
        }),
{
}

/// A refresh token that came is saved, whole, and the access token is kept, whole.
pub proof fn refresh_token_is_saved_whole(session: SessionView, token: TokenView)
    requires
        session.stage is AwaitingToken,
        token.refresh_token is Some,
    ensures
        session.awaits(EventView::Token(Some(token))),
        ({
            let (after, step) = model::next(session, EventView::Token(Some(token)));
            &&& after.command == session.command
            &&& after.stage == (StageView::SavingToken { access_token: token.access_token })
            &&& step.lines == seq!["Access token: "@ + token.access_token]
            &&& step.action == ActionView::SaveRefreshToken(token.refresh_token->0)
        }),
{
}

/// With an access token and nothing to save, the command's own work starts at once: `login` is
/// done, `refresh` creates a playlist, and `recent` asks for as many plays as it was told.
pub proof fn work_starts_with_a_token(session: SessionView, token: TokenView)
    requires
        session.stage is AwaitingToken,
        token.refresh_token is None,
    ensures
        session.awaits(EventView::Token(Some(token))),
        ({
            let (after, step) = model::next(session, EventView::Token(Some(token)));
            &&& after.command == session.command
            &&& session.command is Login ==> {
                &&& after.stage is Ended
                &&& step.lines == seq!["Access token: "@ + token.access_token]
                &&& step.action is Finish
            }
            &&& session.command is Refresh ==> {
                &&& after.stage == (StageView::CreatingScratch { access_token: token.access_token })
                &&& step.lines == seq!["Access token: "@ + token.access_token]
                &&& step.action matches ActionView::Send(request)
                &&& request.method == Method::Post
                &&& request.url == "https://api.spotify.com/v1/me/playlists"@
                &&& request.authorization == Some("Bearer "@ + token.access_token)
                &&& request.query.len() == 0
                &&& request.reply == Reply::PlaylistCreated
                &&& request.report_status
                &&& request.body matches BodyView::NewPlaylist(playlist)
                &&& playlist.name == "TEMP"@
                &&& playlist.description == "TEMP"@
            }
            &&& session.command matches CommandView::Recent(args) ==> {
                &&& after.stage == (StageView::ListingPlayed { access_token: token.access_token })
                &&& step.lines == seq!["Access token: "@ + token.access_token].push("Access token: "@ + token.access_token)
                &&& step.action matches ActionView::Send(request)
                &&& request.method == Method::Get
                &&& request.url == "https://api.spotify.com/v1/me/player/recently-played"@
                &&& request.authorization == Some("Bearer "@ + token.access_token)
                &&& request.query.len() == 1
                &&& request.query[0].0 == "limit"@
                &&& request.query[0].1 == text::decimal_digits(args.num_songs)
                &&& request.reply == Reply::RecentlyPlayed
                &&& !request.report_status
                &&& request.body is Empty
            }
        }),
{
}

/// Once the refresh token is saved, the command's own work starts with the access token that
/// was kept.
pub proof fn work_starts_after_saving(session: SessionView, access_token: Seq<char>)
    requires
        session.stage == (StageView::SavingToken { access_token }),
    ensures
        session.awaits(EventView::TokenSaved),
        ({
            let (after, step) = model::next(session, EventView::TokenSaved);
            &&& after.command == session.command
            &&& session.command is Login ==> {
                &&& after.stage is Ended
                &&& step.lines == Seq::<Seq<char>>::empty()
                &&& step.action is Finish
            }
            &&& session.command is Refresh ==> {
                &&& after.stage == (StageView::CreatingScratch { access_token: access_token })
                &&& step.lines == Seq::<Seq<char>>::empty()
                &&& step.action matches ActionView::Send(request)
                &&& request.method == Method::Post
                &&& request.url == "https://api.spotify.com/v1/me/playlists"@
                &&& request.authorization == Some("Bearer "@ + access_token)
                &&& request.query.len() == 0
                &&& request.reply == Reply::PlaylistCreated
                &&& request.report_status
                &&& request.body matches BodyView::NewPlaylist(playlist)
                &&& playlist.name == "TEMP"@
                &&& playlist.description == "TEMP"@
            }
            &&& session.command matches CommandView::Recent(args) ==> {
                &&& after.stage == (StageView::ListingPlayed { access_token: access_token })
                &&& step.lines == Seq::<Seq<char>>::empty().push("Access token: "@ + access_token)
                &&& step.action matches ActionView::Send(request)
                &&& request.method == Method::Get
                &&& request.url == "https://api.spotify.com/v1/me/player/recently-played"@
                &&& request.authorization == Some("Bearer "@ + access_token)
                &&& request.query.len() == 1
                &&& request.query[0].0 == "limit"@
                &&& request.query[0].1 == text::decimal_digits(args.num_songs)
                &&& request.reply == Reply::RecentlyPlayed
                &&& !request.report_status
                &&& request.body is Empty
            }
        }),
{
}

/// The scratch playlist is deleted by the URI under which it was created.
pub proof fn scratch_playlist_is_deleted(
    session: SessionView,
    access_token: Seq<char>,
    created: CreatedView,
)
    requires
        session.stage == (StageView::CreatingScratch { access_token }),
    ensures
        session.awaits(EventView::PlaylistCreated(created)),
        ({
            let (after, step) = model::next(session, EventView::PlaylistCreated(created));
            &&& after.command == session.command
            &&& after.stage is Closing
            &&& step.lines.len() == 0
            &&& step.action matches ActionView::Send(request)
            &&& request.method == Method::Delete
            &&& request.url == "https://api.spotify.com/v1/me/library"@
            &&& request.authorization == Some("Bearer "@ + access_token)
            &&& request.query.len() == 1
            &&& request.query[0] == ("uris"@, created.uri)
            &&& request.reply == Reply::Ignored
            &&& !request.report_status
            &&& request.body is Empty
        }),
{
}

/// The distinct URIs of tracks are those of the tracks.
proof fn lemma_distinct_uris(played: Seq<TrackView>)
    ensures
        tracks::distinct(tracks::uris_of(played)).no_duplicates(),
        forall|uri: Seq<char>| #[trigger]
            tracks::distinct(tracks::uris_of(played)).contains(uri) <==> exists|i: int|
                0 <= i < played.len() && (#[trigger] played[i]).uri == uri,
{
    let uris = tracks::uris_of(played);
    tracks::distinct_keeps_each_item_once(uris);
    assert forall|uri: Seq<char>| #[trigger] tracks::distinct(uris).contains(uri) <==> exists|i: int|
        0 <= i < played.len() && (#[trigger] played[i]).uri == uri by {
        assert(tracks::distinct(uris).contains(uri) <==> uris.contains(uri));
        if uris.contains(uri) {
            let i = choose|i: int| 0 <= i < uris.len() && uris[i] == uri;
            assert(played[i].uri == uri);
        }
        if exists|i: int| 0 <= i < played.len() && (#[trigger] played[i]).uri == uri {
            let i = choose|i: int| 0 <= i < played.len() && (#[trigger] played[i]).uri == uri;
            assert(uris[i] == uri);
        }
    }
}

/// With a prefix, whatever was played, the user's playlists are listed from the first page on,
/// and every played track is kept, once.
pub proof fn prefix_lists_the_playlists(
    session: SessionView,
    args: RecentArgsView,
    access_token: Seq<char>,
    played: Seq<TrackView>,
)
    requires
        session.stage == (StageView::ListingPlayed { access_token }),
        session.command == CommandView::Recent(args),
        args.prefix is Some,
    ensures
        session.awaits(EventView::RecentlyPlayed(played)),
        ({
            let (after, step) = model::next(session, EventView::RecentlyPlayed(played));
            &&& after.command == session.command
            &&& step.lines.len() == played.len()
            &&& forall|i: int| 0 <= i < played.len() ==> #[trigger] step.lines[i] == played[i].name
            &&& after.stage matches StageView::ListingPlaylists {
                access_token: token,
                played: kept,
                prefix,
                found,
            }
            &&& token == access_token
            &&& prefix == args.prefix->0
            &&& found.len() == 0
            &&& kept.no_duplicates()
            &&& forall|uri: Seq<char>| #[trigger]
                kept.contains(uri) <==> exists|i: int|
                    0 <= i < played.len() && (#[trigger] played[i]).uri == uri
            &&& step.action matches ActionView::Send(request)
            &&& request.method == Method::Get
            &&& request.url == "https://api.spotify.com/v1/me/playlists"@
            &&& request.authorization == Some("Bearer "@ + access_token)
            &&& request.query.len() == 1
            &&& request.query[0] == ("limit"@, "50"@)
            &&& request.reply == Reply::UserPlaylists
            &&& !request.report_status
            &&& request.body is Empty
        }),
{
    lemma_distinct_uris(played);
}

/// With a name and no prefix, whatever was played and however much, a playlist of that name is
/// created, and every played track is kept, once.
pub proof fn name_creates_the_playlist(
    session: SessionView,
    args: RecentArgsView,
    access_token: Seq<char>,
    played: Seq<TrackView>,
)
    requires
        session.stage == (StageView::ListingPlayed { access_token }),
        session.command == CommandView::Recent(args),
        args.prefix is None,
        args.name is Some,
    ensures
        session.awaits(EventView::RecentlyPlayed(played)),
        ({
            let (after, step) = model::next(session, EventView::RecentlyPlayed(played));
            &&& after.command == session.command
            &&& step.lines.len() == played.len()
            &&& forall|i: int| 0 <= i < played.len() ==> #[trigger] step.lines[i] == played[i].name
            &&& after.stage matches StageView::CreatingPlaylist { access_token: token, played: kept }
            &&& token == access_token
            &&& kept.no_duplicates()
            &&& forall|uri: Seq<char>| #[trigger]
                kept.contains(uri) <==> exists|i: int|
                    0 <= i < played.len() && (#[trigger] played[i]).uri == uri
            &&& step.action matches ActionView::Send(request)
            &&& request.method == Method::Post
            &&& request.url == "https://api.spotify.com/v1/me/playlists"@
            &&& request.authorization == Some("Bearer "@ + access_token)
            &&& request.query.len() == 0
            &&& request.reply == Reply::PlaylistCreated
            &&& request.report_status
            &&& request.body matches BodyView::NewPlaylist(playlist)
            &&& playlist.name == args.name->0
            &&& playlist.description == "NA"@
        }),
{
    lemma_distinct_uris(played);
}

/// With neither, the played tracks are printed and that is all.
pub proof fn nothing_is_done_without_a_playlist(
    session: SessionView,
    args: RecentArgsView,
    access_token: Seq<char>,
    played: Seq<TrackView>,
)
    requires
        session.stage == (StageView::ListingPlayed { access_token }),
        session.command == CommandView::Recent(args),
        args.prefix is None,
        args.name is None,
    ensures
        session.awaits(EventView::RecentlyPlayed(played)),
        ({
            let (after, step) = model::next(session, EventView::RecentlyPlayed(played));
            &&& after.command == session.command
            &&& step.lines.len() == played.len()
            &&& forall|i: int| 0 <= i < played.len() ==> #[trigger] step.lines[i] == played[i].name
            &&& after.stage is Ended
            &&& step.action is Finish
        }),
{
}

/// Where a page names the one behind it, that one is asked for at that very URL, and the
/// playlists of the page are kept behind those before.
pub proof fn next_page_of_playlists_is_asked_for(
    session: SessionView,
    access_token: Seq<char>,
    played: Seq<Seq<char>>,
    prefix: Seq<char>,
    found: Seq<PlaylistView>,
    page: PageView<PlaylistView>,
)
    requires
        session.stage == (StageView::ListingPlaylists { access_token, played, prefix, found }),
        page.next is Some,
    ensures
        session.awaits(EventView::UserPlaylists(page)),
        ({
            let (after, step) = model::next(session, EventView::UserPlaylists(page));
            &&& after.command == session.command
            &&& after.stage == (StageView::ListingPlaylists {
                access_token,
                played,
                prefix,
                found: found + page.items,
            })
            &&& step.lines.len() == 0
            &&& step.action matches ActionView::Send(request)
            &&& request.method == Method::Get
            &&& request.url == page.next->0
            &&& request.authorization == Some("Bearer "@ + access_token)
            &&& request.query.len() == 1
            &&& request.query[0] == ("limit"@, "50"@)
            &&& request.reply == Reply::UserPlaylists
            &&& !request.report_status
            &&& request.body is Empty
        }),
{
}

/// After the last page, the first of all the playlists whose name starts with the prefix is
/// opened under its id, and what was played is kept. Its index is given.
pub proof fn first_matching_playlist_is_opened(
    session: SessionView,
    access_token: Seq<char>,
    played: Seq<Seq<char>>,
    prefix: Seq<char>,
    found: Seq<PlaylistView>,
    page: PageView<PlaylistView>,
    index: int,
)
    requires
        session.stage == (StageView::ListingPlaylists { access_token, played, prefix, found }),
        page.next is None,
        0 <= index < (found + page.items).len(),
        ({
            let name = (found + page.items)[index].name;
            &&& text::lowercase(prefix).len() <= text::lowercase(name).len()
            &&& forall|i: int|
                0 <= i < text::lowercase(prefix).len() ==> #[trigger] text::lowercase(prefix)[i]
                    == text::lowercase(name)[i]
        }),
        forall|earlier: int|
            0 <= earlier < index ==> !{
                let name = (#[trigger] (found + page.items)[earlier]).name;
                &&& text::lowercase(prefix).len() <= text::lowercase(name).len()
                &&& forall|i: int|
                    0 <= i < text::lowercase(prefix).len() ==> #[trigger] text::lowercase(
                        prefix,
                    )[i] == text::lowercase(name)[i]
            },
    ensures
        session.awaits(EventView::UserPlaylists(page)),
        ({
            let (after, step) = model::next(session, EventView::UserPlaylists(page));
            &&& after.command == session.command
            &&& after.stage == (StageView::ListingSongs {
                access_token,
                played,
                playlist_id: (found + page.items)[index].id,
                songs: seq![],
            })
            &&& step.lines.len() > 0
            &&& step.lines.last() == "Found "@ + (found + page.items)[index].name
                + " matching prefix"@
            &&& step.lines.len() == playlists::matching(found + page.items, prefix).len() + 1
            &&& forall|i: int|
                0 <= i < step.lines.len() - 1 ==> #[trigger] step.lines[i] == "MATCH FOUND: "@
                    + playlists::matching(found + page.items, prefix)[i].name
            &&& step.action matches ActionView::Send(request)
            &&& request.method == Method::Get
            &&& request.url == "https://api.spotify.com/v1/playlists/"@ + (found
                + page.items)[index].id + "/items"@
            &&& request.authorization == Some("Bearer "@ + access_token)
            &&& request.query.len() == 1
            &&& request.query[0] == ("limit"@, "50"@)
            &&& request.reply == Reply::PlaylistItems
            &&& !request.report_status
            &&& request.body is Empty
        }),
{
    let all = found + page.items;
    assert forall|k: int| 0 <= k <= index implies text::starts_with_ignoring_case(
        (#[trigger] all[k]).name,
        prefix,
    ) == (k == index) by {
        text::prefix_match_compares_every_character(all[k].name, prefix);
    }
    playlists::matching_keeps_the_matches(all, prefix);
    assert(all.contains(all[index]));
    assert(playlists::matching(all, prefix).contains(all[index]));
    let first = playlists::first_match_comes_first(all, prefix);
    if first < index {
        assert(!text::starts_with_ignoring_case(all[first].name, prefix));
    }
    if index < first {
        assert(!text::starts_with_ignoring_case(all[index].name, prefix));
    }
    assert(first == index);
}

/// After the last page, where the name of no playlist starts with the prefix, nothing is done.
pub proof fn no_matching_playlist_ends_the_session(
    session: SessionView,
    access_token: Seq<char>,
    played: Seq<Seq<char>>,
    prefix: Seq<char>,
    found: Seq<PlaylistView>,
    page: PageView<PlaylistView>,
)
    requires
        session.stage == (StageView::ListingPlaylists { access_token, played, prefix, found }),
        page.next is None,
        forall|index: int|
            0 <= index < (found + page.items).len() ==> !{
                let name = (#[trigger] (found + page.items)[index]).name;
                &&& text::lowercase(prefix).len() <= text::lowercase(name).len()
                &&& forall|i: int|
                    0 <= i < text::lowercase(prefix).len() ==> #[trigger] text::lowercase(
                        prefix,
                    )[i] == text::lowercase(name)[i]
            },
    ensures
        session.awaits(EventView::UserPlaylists(page)),
        ({
            let (after, step) = model::next(session, EventView::UserPlaylists(page));
            &&& after.command == session.command
            &&& after.stage is Ended
            &&& step.lines.len() == 0
            &&& step.action is Finish
        }),
{
    let all = found + page.items;
    if playlists::matching(all, prefix).len() > 0 {
        let first = playlists::first_match_comes_first(all, prefix);
        text::prefix_match_compares_every_character(all[first].name, prefix);
        assert(all[first] == (found + page.items)[first]);
        assert(false);
    }
}

/// The playlist that was created is opened under its id, and what was played is kept.
pub proof fn created_playlist_is_opened(
    session: SessionView,
    access_token: Seq<char>,
    played: Seq<Seq<char>>,
    created: CreatedView,
)
    requires
        session.stage == (StageView::CreatingPlaylist { access_token, played }),
    ensures
        session.awaits(EventView::PlaylistCreated(created)),
        ({
            let (after, step) = model::next(session, EventView::PlaylistCreated(created));
            &&& after.command == session.command
            &&& after.stage == (StageView::ListingSongs {
                access_token,
                played,
                playlist_id: created.id,
                songs: seq![],
            })
            &&& step.lines == seq!["Playlist ID: "@ + created.uri]
            &&& step.action matches ActionView::Send(request)
            &&& request.method == Method::Get
            &&& request.url == "https://api.spotify.com/v1/playlists/"@ + created.id + "/items"@
            &&& request.authorization == Some("Bearer "@ + access_token)
            &&& request.query.len() == 1
            &&& request.query[0] == ("limit"@, "50"@)
            &&& request.reply == Reply::PlaylistItems
            &&& !request.report_status
            &&& request.body is Empty
        }),
{
}

/// Where a page names the one behind it, that one is asked for at that very URL, and the tracks
/// of the page are kept behind those before.
pub proof fn next_page_of_tracks_is_asked_for(
    session: SessionView,
    access_token: Seq<char>,
    played: Seq<Seq<char>>,
    playlist_id: Seq<char>,
    songs: Seq<Seq<char>>,
    page: PageView<TrackView>,
)
    requires
        session.stage == (StageView::ListingSongs { access_token, played, playlist_id, songs }),
        page.next is Some,
    ensures
        session.awaits(EventView::PlaylistItems(page)),
        ({
            let (after, step) = model::next(session, EventView::PlaylistItems(page));
            &&& after.command == session.command
            &&& after.stage matches StageView::ListingSongs {
                access_token: token,
                played: kept,
                playlist_id: id,
                songs: listed,
            }
            &&& token == access_token
            &&& kept == played
            &&& id == playlist_id
            &&& listed.len() == songs.len() + page.items.len()
            &&& forall|i: int| 0 <= i < songs.len() ==> #[trigger] listed[i] == songs[i]
            &&& forall|i: int|
                0 <= i < page.items.len() ==> listed[songs.len() + i] == (#[trigger] page.items[i]).uri
            &&& step.lines.len() == page.items.len()
            &&& forall|i: int|
                0 <= i < page.items.len() ==> #[trigger] step.lines[i] == page.items[i].name
            &&& step.action matches ActionView::Send(request)
            &&& request.method == Method::Get
            &&& request.url == page.next->0
            &&& request.authorization == Some("Bearer "@ + access_token)
            &&& request.query.len() == 1
            &&& request.query[0] == ("limit"@, "50"@)
            &&& request.reply == Reply::PlaylistItems
            &&& !request.report_status
            &&& request.body is Empty
        }),
{
}

/// The tracks that are missing from a playlist and its last page.
proof fn lemma_missing_uris(played: Seq<Seq<char>>, songs: Seq<Seq<char>>, items: Seq<TrackView>)
    ensures
        ({
            let added = tracks::missing(played, songs + tracks::uris_of(items));
            &&& played.no_duplicates() ==> added.no_duplicates()
            &&& forall|uri: Seq<char>| #[trigger]
                added.contains(uri) <==> {
                    &&& played.contains(uri)
                    &&& !songs.contains(uri)
                    &&& !exists|i: int| 0 <= i < items.len() && (#[trigger] items[i]).uri == uri
                }
        }),
{
    let uris = tracks::uris_of(items);
    let present = songs + uris;
    let added = tracks::missing(played, present);
    tracks::missing_is_difference(played, present);
    assert forall|uri: Seq<char>| #[trigger] added.contains(uri) <==> {
        &&& played.contains(uri)
        &&& !songs.contains(uri)
        &&& !exists|i: int| 0 <= i < items.len() && (#[trigger] items[i]).uri == uri
    } by {
        assert(added.contains(uri) <==> played.contains(uri) && !present.contains(uri));
        if present.contains(uri) {
            let k = choose|k: int| 0 <= k < present.len() && present[k] == uri;
            if k < songs.len() {
                assert(songs[k] == uri);
            } else {
                assert(items[k - songs.len()].uri == uri);
            }
        }
        if songs.contains(uri) {
            let k = choose|k: int| 0 <= k < songs.len() && songs[k] == uri;
            assert(present[k] == uri);
        }
        if exists|i: int| 0 <= i < items.len() && (#[trigger] items[i]).uri == uri {
            let i = choose|i: int| 0 <= i < items.len() && (#[trigger] items[i]).uri == uri;
            assert(present[songs.len() + i] == uri);
        }
    }
}

/// After the last page, if a played track is neither on it nor on a page before, all such tracks
/// are added at the top of the playlist, and their number is printed.
pub proof fn absent_tracks_are_added(
    session: SessionView,
    access_token: Seq<char>,
    played: Seq<Seq<char>>,
    playlist_id: Seq<char>,
    songs: Seq<Seq<char>>,
    page: PageView<TrackView>,
    absent: Seq<char>,
)
    requires
        session.stage == (StageView::ListingSongs { access_token, played, playlist_id, songs }),
        page.next is None,
        played.contains(absent),
        !songs.contains(absent),
        !exists|i: int| 0 <= i < page.items.len() && (#[trigger] page.items[i]).uri == absent,
    ensures
        session.awaits(EventView::PlaylistItems(page)),
        ({
            let (after, step) = model::next(session, EventView::PlaylistItems(page));
            &&& after.command == session.command
            &&& after.stage == (StageView::AddingTracks { access_token, playlist_id })
            &&& step.action matches ActionView::Send(request)
            &&& request.method == Method::Post
            &&& request.url == "https://api.spotify.com/v1/playlists/"@ + playlist_id + "/items"@
            &&& request.authorization == Some("Bearer "@ + access_token)
            &&& request.query.len() == 0
            &&& request.reply == Reply::Ignored
            &&& request.report_status
            &&& request.body matches BodyView::AddTracks(sent)
            &&& sent.position == 0
            &&& played.no_duplicates() ==> sent.uris.no_duplicates()
            &&& forall|uri: Seq<char>| #[trigger]
                sent.uris.contains(uri) <==> {
                    &&& played.contains(uri)
                    &&& !songs.contains(uri)
                    &&& !exists|i: int|
                        0 <= i < page.items.len() && (#[trigger] page.items[i]).uri == uri
                }
            &&& step.lines.len() == page.items.len() + 1
            &&& forall|i: int|
                0 <= i < page.items.len() ==> #[trigger] step.lines[i] == page.items[i].name
            &&& step.lines.last() == "Adding "@ + text::decimal_digits(sent.uris.len())
                + " songs to playlist"@
        }),
{
    lemma_missing_uris(played, songs, page.items);
    let added = tracks::missing(played, songs + tracks::uris_of(page.items));
    assert(added.contains(absent));
}

/// After the last page, if every played track is on it or on a page before, no request goes out.
pub proof fn present_tracks_end_the_session(
    session: SessionView,
    access_token: Seq<char>,
    played: Seq<Seq<char>>,
    playlist_id: Seq<char>,
    songs: Seq<Seq<char>>,
    page: PageView<TrackView>,
)
    requires
        session.stage == (StageView::ListingSongs { access_token, played, playlist_id, songs }),
        page.next is None,
        forall|uri: Seq<char>| #[trigger]
            played.contains(uri) ==> {
                ||| songs.contains(uri)
                ||| exists|i: int| 0 <= i < page.items.len() && (#[trigger] page.items[i]).uri == uri
            },
    ensures
        session.awaits(EventView::PlaylistItems(page)),
        ({
            let (after, step) = model::next(session, EventView::PlaylistItems(page));
            &&& after.command == session.command
            &&& after.stage is Ended
            &&& step.action is Finish
            &&& step.lines.len() == page.items.len() + 1
            &&& forall|i: int|
                0 <= i < page.items.len() ==> #[trigger] step.lines[i] == page.items[i].name
            &&& step.lines.last() == "Adding "@ + text::decimal_digits(0) + " songs to playlist"@
        }),
{
    lemma_missing_uris(played, songs, page.items);
    let added = tracks::missing(played, songs + tracks::uris_of(page.items));
    if added.len() > 0 {
        assert(added.contains(added[0]));
        assert(played.contains(added[0]));
        assert(false);
    }
}

/// Once the tracks are added, the same playlist is followed.
pub proof fn extended_playlist_is_followed(
    session: SessionView,
    access_token: Seq<char>,
    playlist_id: Seq<char>,
)
    requires
        session.stage == (StageView::AddingTracks { access_token, playlist_id }),
    ensures
        session.awaits(EventView::Sent),
        ({
            let (after, step) = model::next(session, EventView::Sent);
            &&& after.command == session.command
            &&& after.stage is Closing
            &&& step.lines.len() == 0
            &&& step.action matches ActionView::Send(request)
            &&& request.method == Method::Put
            &&& request.url == "https://api.spotify.com/v1/playlists/"@ + playlist_id
                + "/followers"@
            &&& request.authorization == Some("Bearer "@ + access_token)
            &&& request.query.len() == 0
            &&& request.reply == Reply::Ignored
            &&& !request.report_status
            &&& request.body is Empty
        }),
{
}

/// The last request ends the session.
pub proof fn last_request_ends_the_session(session: SessionView)
    requires
        session.stage is Closing,
    ensures
        session.awaits(EventView::Sent),
        ({
            let (after, step) = model::next(session, EventView::Sent);
            &&& after.command == session.command
            &&& after.stage is Ended
            &&& step.lines.len() == 0
            &&& step.action is Finish
        }),
{
}

/// A failure ends the session with its message, whole.
pub proof fn failure_ends_the_session(session: SessionView, message: Seq<char>)
    requires
        !(session.stage is ReadingToken || session.stage is CreatingVerifier
            || session.stage is OpeningBrowser || session.stage is AwaitingCallback
            || session.stage is Ended),
    ensures
        session.awaits(EventView::Failed(message)),
        ({
            let (after, step) = model::next(session, EventView::Failed(message));
            &&& after.command == session.command
            &&& after.stage is Ended
            &&& step.lines.len() == 0
            &&& step.action == ActionView::Fail(message)
        }),
{
}

/// A session waits for no event but those that answer what it does, and for none once it has
/// ended; steps that cannot fail wait for no failure.
pub proof fn nothing_else_is_awaited(session: SessionView, event: EventView)
    requires
        session.awaits(event),
    ensures
        event is SavedToken ==> session.stage is ReadingToken,
        event is Verifier ==> session.stage is CreatingVerifier,
        event is BrowserOpened ==> session.stage is OpeningBrowser,
        event is Callback ==> session.stage is AwaitingCallback,
        event is Token ==> session.stage is AwaitingToken,
        event is TokenSaved ==> session.stage is SavingToken,
        event is RecentlyPlayed ==> session.stage is ListingPlayed,
        event is UserPlaylists ==> session.stage is ListingPlaylists,
        event is PlaylistItems ==> session.stage is ListingSongs,
        event is PlaylistCreated ==> session.stage is CreatingScratch || session.stage
            is CreatingPlaylist,
        event is Sent ==> session.stage is AddingTracks || session.stage is Closing,
        event is Failed ==> !(session.stage is ReadingToken || session.stage is CreatingVerifier
            || session.stage is OpeningBrowser || session.stage is AwaitingCallback),
        !(session.stage is Ended),
{
}

} // verus!
