//! What holds of whole sessions, whatever comes back from the world.

use crate::api::{CreatedView, PageView, PlaylistView, TrackView};
use crate::model::{
    ActionView, CommandView, EventView, RecentArgsView, SessionView, StageView, StepView,
};
use crate::requests::{BodyView, Method, Reply, RequestView, TOKEN_URL};
use crate::{auth, model, pkce, playlists, requests, steps, text, tracks};
use vstd::prelude::*;
use vstd::string::*;

verus! {

/// The state of a session after a number of events, and the steps on the way.
pub open spec fn run(session: SessionView, events: Seq<EventView>) -> (
    SessionView,
    Seq<StepView>,
)
    decreases events.len(),
{
    if events.len() == 0 {
        (session, seq![])
    } else {
        let (before, steps) = run(session, events.drop_last());
        let (after, step) = model::next(before, events.last());
        (after, steps.push(step))
    }
}

/// Whether each event was awaited when it came.
pub open spec fn accepted(session: SessionView, events: Seq<EventView>) -> bool
    decreases events.len(),
{
    events.len() == 0 || {
        &&& accepted(session, events.drop_last())
        &&& run(session, events.drop_last()).0.awaits(events.last())
    }
}

/// A possible history of a command.
pub open spec fn history(command: CommandView, events: Seq<EventView>) -> bool {
    accepted(model::first(command).0, events)
}

/// Where a command stands after its history.
pub open spec fn state_after(command: CommandView, events: Seq<EventView>) -> SessionView {
    run(model::first(command).0, events).0
}

/// The step that the last event of a history leads to, or the first step of all.
pub open spec fn last_step(command: CommandView, events: Seq<EventView>) -> StepView {
    if events.len() == 0 {
        model::first(command).1
    } else {
        run(model::first(command).0, events).1.last()
    }
}

/// The access token of the last token reply.
pub open spec fn access_token(events: Seq<EventView>) -> Option<Seq<char>>
    decreases events.len(),
{
    if events.len() == 0 {
        None
    } else {
        match events.last() {
            EventView::Token(Some(token)) => Some(token.access_token),
            _ => access_token(events.drop_last()),
        }
    }
}

/// The tracks that were reported as played.
pub open spec fn played_tracks(events: Seq<EventView>) -> Seq<TrackView>
    decreases events.len(),
{
    if events.len() == 0 {
        seq![]
    } else {
        match events.last() {
            EventView::RecentlyPlayed(tracks) => played_tracks(events.drop_last()) + tracks,
            _ => played_tracks(events.drop_last()),
        }
    }
}

/// The user's playlists, page after page.
pub open spec fn listed_playlists(events: Seq<EventView>) -> Seq<PlaylistView>
    decreases events.len(),
{
    if events.len() == 0 {
        seq![]
    } else {
        match events.last() {
            EventView::UserPlaylists(page) => listed_playlists(events.drop_last()) + page.items,
            _ => listed_playlists(events.drop_last()),
        }
    }
}

/// The tracks of the chosen playlist, page after page.
pub open spec fn listed_tracks(events: Seq<EventView>) -> Seq<TrackView>
    decreases events.len(),
{
    if events.len() == 0 {
        seq![]
    } else {
        match events.last() {
            EventView::PlaylistItems(page) => listed_tracks(events.drop_last()) + page.items,
            _ => listed_tracks(events.drop_last()),
        }
    }
}

/// The playlist that was created last.
pub open spec fn created_playlist(events: Seq<EventView>) -> Option<CreatedView>
    decreases events.len(),
{
    if events.len() == 0 {
        None
    } else {
        match events.last() {
            EventView::PlaylistCreated(created) => Some(created),
            _ => created_playlist(events.drop_last()),
        }
    }
}

/// The playlist that the `recent` command works on: the first of the user's playlists whose
/// name starts with the prefix, or the one that was created.
pub open spec fn chosen_playlist(args: RecentArgsView, events: Seq<EventView>) -> Seq<char> {
    match args.prefix {
        Some(prefix) => playlists::matching(listed_playlists(events), prefix)[0].id,
        None => created_playlist(events)->0.id,
    }
}

/// The tracks that the `recent` command owes the chosen playlist: those that were played, each
/// once, without those that the playlist holds.
pub open spec fn owed_tracks(events: Seq<EventView>) -> Seq<Seq<char>> {
    tracks::missing(
        tracks::distinct(tracks::uris_of(played_tracks(events))),
        tracks::uris_of(listed_tracks(events)),
    )
}

/// Whether an event answers an action. Requests and the saving of a token can fail.
pub open spec fn answers(action: ActionView, event: EventView) -> bool {
    if event is Failed {
        action is Send || action is SaveRefreshToken
    } else {
        is_reply_to(action, event)
    }
}

/// Whether an event is what an action was for.
pub open spec fn is_reply_to(action: ActionView, event: EventView) -> bool {
    match action {
        ActionView::ReadRefreshToken => event is SavedToken,
        ActionView::CreateVerifier => event is Verifier,
        ActionView::OpenBrowser(_) => event is BrowserOpened,
        ActionView::AwaitCallback => event is Callback,
        ActionView::SaveRefreshToken(_) => event is TokenSaved,
        ActionView::Send(request) => match request.reply {
            Reply::Token => event is Token,
            Reply::RecentlyPlayed => event is RecentlyPlayed,
            Reply::UserPlaylists => event is UserPlaylists,
            Reply::PlaylistItems => event is PlaylistItems,
            Reply::PlaylistCreated => event is PlaylistCreated,
            Reply::Ignored => event is Sent,
        },
        ActionView::Finish => false,
        ActionView::Fail(_) => false,
    }
}

/// What the state of a command remembers of its history.
spec fn remembers(session: SessionView, events: Seq<EventView>) -> bool {
    let played = tracks::distinct(tracks::uris_of(played_tracks(events)));
    match session.stage {
        StageView::ReadingToken
        | StageView::CreatingVerifier
        | StageView::OpeningBrowser { .. }
        | StageView::AwaitingCallback { .. }
        | StageView::AwaitingToken => {
            &&& played_tracks(events).len() == 0
            &&& listed_playlists(events).len() == 0
            &&& listed_tracks(events).len() == 0
        },
        StageView::SavingToken { access_token: token }
        | StageView::CreatingScratch { access_token: token }
        | StageView::ListingPlayed { access_token: token } => {
            &&& access_token(events) == Some(token)
            &&& played_tracks(events).len() == 0
            &&& listed_playlists(events).len() == 0
            &&& listed_tracks(events).len() == 0
        },
        StageView::ListingPlaylists { access_token: token, played: kept, found, .. } => {
            &&& access_token(events) == Some(token)
            &&& kept == played
            &&& found == listed_playlists(events)
            &&& listed_tracks(events).len() == 0
        },
        StageView::CreatingPlaylist { access_token: token, played: kept } => {
            &&& access_token(events) == Some(token)
            &&& kept == played
            &&& listed_tracks(events).len() == 0
        },
        StageView::ListingSongs { access_token: token, played: kept, playlist_id, songs } => {
            &&& session.command matches CommandView::Recent(args)
            &&& access_token(events) == Some(token)
            &&& kept == played
            &&& playlist_id == chosen_playlist(args, events)
            &&& songs == tracks::uris_of(listed_tracks(events))
        },
        StageView::AddingTracks { access_token: token, playlist_id } => {
            &&& session.command matches CommandView::Recent(args)
            &&& access_token(events) == Some(token)
            &&& playlist_id == chosen_playlist(args, events)
        },
        StageView::Closing | StageView::Ended => true,
    }
}

/// One step keeps the memory.
proof fn lemma_next_remembers(session: SessionView, events: Seq<EventView>, event: EventView)
    requires
        session.well_formed(),
        session.awaits(event),
        remembers(session, events),
    ensures
        remembers(model::next(session, event).0, events.push(event)),
{
    let after = events.push(event);
    assert(after.drop_last() =~= events);
    assert(after.last() == event);
    match event {
        EventView::RecentlyPlayed(tracks) => {
            assert(played_tracks(after) =~= tracks);
            assert(listed_playlists(after) =~= seq![]);
        },
        EventView::UserPlaylists(page) => {
            assert(listed_tracks(after) =~= seq![]);
            assert(tracks::uris_of(listed_tracks(after)) =~= seq![]);
        },
        EventView::PlaylistCreated(created) => {
            assert(listed_tracks(after) =~= seq![]);
            assert(tracks::uris_of(listed_tracks(after)) =~= seq![]);
        },
        EventView::PlaylistItems(page) => {
            assert(tracks::uris_of(listed_tracks(after)) =~= tracks::uris_of(listed_tracks(events))
                + tracks::uris_of(page.items));
        },
        _ => {},
    }
}

/// A history without its last event is one too, and the last event leads on from there.
proof fn lemma_history_front(command: CommandView, events: Seq<EventView>)
    requires
        history(command, events),
        events.len() > 0,
    ensures
        history(command, events.drop_last()),
        state_after(command, events.drop_last()).awaits(events.last()),
        (state_after(command, events), last_step(command, events)) == model::next(
            state_after(command, events.drop_last()),
            events.last(),
        ),
{
}

/// The memory holds after every history.
proof fn lemma_history_remembers(command: CommandView, events: Seq<EventView>)
    requires
        history(command, events),
    ensures
        state_after(command, events).well_formed(),
        state_after(command, events).command == command,
        remembers(state_after(command, events), events),
    decreases events.len(),
{
    if events.len() > 0 {
        let front = events.drop_last();
        lemma_history_remembers(command, front);
        let before = state_after(command, front);
        model::next_keeps_well_formed(before, events.last());
        lemma_next_remembers(before, front, events.last());
        assert(front.push(events.last()) =~= events);
    }
}

/// The invariant holds after every history.
pub proof fn sessions_stay_well_formed(command: CommandView, events: Seq<EventView>)
    requires
        history(command, events),
    ensures
        state_after(command, events).well_formed(),
        state_after(command, events).command == command,
{
    lemma_history_remembers(command, events);
}

/// A session waits for exactly the events that answer its last action, so it is never stuck
/// before it stops and takes nothing afterwards.
pub proof fn sessions_await_their_answers(
    command: CommandView,
    events: Seq<EventView>,
    event: EventView,
)
    requires
        history(command, events),
    ensures
        state_after(command, events).awaits(event) <==> answers(
            last_step(command, events).action,
            event,
        ),
{
    if events.len() > 0 {
        lemma_history_remembers(command, events.drop_last());
    }
}

/// A session has stopped if and only if its last action says so.
pub proof fn sessions_end_when_they_say_so(command: CommandView, events: Seq<EventView>)
    requires
        history(command, events),
    ensures
        state_after(command, events).stage is Ended <==> {
            ||| last_step(command, events).action is Finish
            ||| last_step(command, events).action is Fail
        },
{
    if events.len() > 0 {
        lemma_history_remembers(command, events.drop_last());
    }
}

/// When the last page of the chosen playlist has come, the tracks that are owed are added to
/// it in one request; where none is owed, the session stops without a request.
pub proof fn owed_tracks_are_added(
    args: RecentArgsView,
    events: Seq<EventView>,
    page: PageView<TrackView>,
)
    requires
        history(CommandView::Recent(args), events.push(EventView::PlaylistItems(page))),
        page.next is None,
    ensures
        ({
            let all = events.push(EventView::PlaylistItems(page));
            last_step(CommandView::Recent(args), all).action == if owed_tracks(all).len() == 0 {
                ActionView::Finish
            } else {
                ActionView::Send(
                    requests::add_tracks_view(
                        chosen_playlist(args, all),
                        tracks::at_the_top(owed_tracks(all)),
                        access_token(all)->0,
                    ),
                )
            }
        }),
{
    let command = CommandView::Recent(args);
    let event = EventView::PlaylistItems(page);
    let all = events.push(event);
    assert(all.drop_last() =~= events);
    lemma_history_remembers(command, events);
    assert(tracks::uris_of(listed_tracks(all)) =~= tracks::uris_of(listed_tracks(events))
        + tracks::uris_of(page.items));
}

/// Tracks are added only by the `recent` command, only after the last page of the chosen
/// playlist, only to that playlist, and only those that are owed.
pub proof fn only_owed_tracks_are_added(
    command: CommandView,
    events: Seq<EventView>,
    request: RequestView,
)
    requires
        history(command, events),
        last_step(command, events).action == ActionView::Send(request),
        request.body is AddTracks,
    ensures
        command matches CommandView::Recent(args) && request == requests::add_tracks_view(
            chosen_playlist(args, events),
            tracks::at_the_top(owed_tracks(events)),
            access_token(events)->0,
        ),
        owed_tracks(events).len() > 0,
        events.last() matches EventView::PlaylistItems(page) && page.next is None,
{
    assert(events.len() > 0);
    let front = events.drop_last();
    lemma_history_remembers(command, front);
    assert(front.push(events.last()) =~= events);
    match (command, events.last()) {
        (CommandView::Recent(args), EventView::PlaylistItems(page)) => {
            if page.next is None {
                owed_tracks_are_added(args, front, page);
            }
        },
        _ => {},
    }
}

/// An owed track was played and is not in the playlist, every such track is owed, and none is
/// owed twice.
pub proof fn owed_tracks_are_played_and_absent(events: Seq<EventView>, uri: Seq<char>)
    ensures
        owed_tracks(events).contains(uri) <==> {
            &&& tracks::uris_of(played_tracks(events)).contains(uri)
            &&& !tracks::uris_of(listed_tracks(events)).contains(uri)
        },
        owed_tracks(events).no_duplicates(),
{
    let played = tracks::uris_of(played_tracks(events));
    let present = tracks::uris_of(listed_tracks(events));
    tracks::distinct_keeps_each_item_once(played);
    tracks::missing_is_difference(tracks::distinct(played), present);
    assert(tracks::distinct(played).contains(uri) <==> played.contains(uri));
    assert(tracks::missing(tracks::distinct(played), present).contains(uri) <==> tracks::distinct(
        played,
    ).contains(uri) && !present.contains(uri));
}

/// A request for a token goes to the token endpoint without authorization; every other request
/// is authorized by the access token that came last.
pub proof fn requests_carry_the_access_token(
    command: CommandView,
    events: Seq<EventView>,
    request: RequestView,
)
    requires
        history(command, events),
        last_step(command, events).action == ActionView::Send(request),
    ensures
        request.reply == Reply::Token ==> request.url == TOKEN_URL@ && request.authorization
            is None,
        request.reply != Reply::Token ==> {
            &&& access_token(events) matches Some(token)
            &&& request.authorization == Some(requests::bearer_view(token))
        },
{
    assert(events.len() > 0);
    let front = events.drop_last();
    lemma_history_remembers(command, front);
    assert(front.push(events.last()) =~= events);
}

/// The `login` command sends nothing but requests for a token, and never a refresh token.
pub proof fn login_only_asks_for_tokens(events: Seq<EventView>, request: RequestView)
    requires
        history(CommandView::Login, events),
        last_step(CommandView::Login, events).action == ActionView::Send(request),
    ensures
        events.last() matches EventView::Callback(Some(code)) && exists|code_verifier: Seq<char>|
            request == #[trigger] requests::token_exchange_view(code, code_verifier),
{
    assert(events.len() > 0);
    let front = events.drop_last();
    lemma_history_remembers(CommandView::Login, front);
    match (state_after(CommandView::Login, front).stage, events.last()) {
        (
            StageView::AwaitingCallback { code_verifier },
            EventView::Callback(Some(code)),
        ) => {
            assert(request == requests::token_exchange_view(code, code_verifier));
        },
        _ => {},
    }
}

/// A saved refresh token is used by every command but `login`; without one, and for `login`,
/// the browser is used.
pub proof fn saved_token_is_used_unless_logging_in(
    command: CommandView,
    saved: Option<Seq<char>>,
)
    ensures
        history(command, seq![EventView::SavedToken(saved)]),
        last_step(command, seq![EventView::SavedToken(saved)]).action == match (command, saved) {
            (CommandView::Login, _) => ActionView::CreateVerifier,
            (_, Some(token)) => ActionView::Send(requests::token_refresh_view(token)),
            (_, None) => ActionView::CreateVerifier,
        },
{
    let events = seq![EventView::SavedToken(saved)];
    assert(events.drop_last() =~= seq![]);
    reveal_with_fuel(run, 2);
    reveal_with_fuel(accepted, 2);
}

/// The code verifier that goes out with an authorization code is the one whose challenge was
/// on the login page, two events before the code came.
pub proof fn code_verifier_matches_challenge(
    command: CommandView,
    events: Seq<EventView>,
    code: Seq<char>,
)
    requires
        history(command, events),
        events.len() > 0,
        events.last() == EventView::Callback(Some(code)),
    ensures
        events.len() >= 3,
        events[events.len() - 3] matches EventView::Verifier(code_verifier) && {
            &&& last_step(command, events.take(events.len() - 2)).action
                == ActionView::OpenBrowser(
                auth::auth_url_view(pkce::code_challenge(code_verifier)),
            )
            &&& last_step(command, events).action == ActionView::Send(
                requests::token_exchange_view(code, code_verifier),
            )
        },
{
    lemma_history_front(command, events);
    let waiting = events.drop_last();
    assert(state_after(command, waiting).stage is AwaitingCallback);
    lemma_history_front(command, waiting);
    let opening = waiting.drop_last();
    lemma_history_remembers(command, opening);
    assert(state_after(command, opening).stage is OpeningBrowser);
    lemma_history_front(command, opening);
    lemma_history_remembers(command, opening.drop_last());
    assert(state_after(command, opening.drop_last()).stage is CreatingVerifier);
    assert(opening =~= events.take(events.len() - 2));
    assert(opening.last() == events[events.len() - 3]);
}

/// The code verifier stands nowhere in the URL that the browser opens, unless it happens to be
/// its own challenge.
pub proof fn browser_never_sees_the_verifier(
    command: CommandView,
    events: Seq<EventView>,
    code_verifier: Seq<char>,
)
    requires
        history(command, events.push(EventView::Verifier(code_verifier))),
        code_verifier.len() == 43,
        forall|i: int|
            0 <= i < code_verifier.len() ==> pkce::is_url_safe(#[trigger] code_verifier[i]),
        code_verifier != pkce::code_challenge(code_verifier),
    ensures
        last_step(
            command,
            events.push(EventView::Verifier(code_verifier)),
        ).action matches ActionView::OpenBrowser(url) && !text::occurs_in(code_verifier, url),
{
    lemma_history_front(command, events.push(EventView::Verifier(code_verifier)));
    pkce::code_challenge_is_url_safe(code_verifier);
    auth::login_page_hides_the_verifier(code_verifier, pkce::code_challenge(code_verifier));
}

/// A refresh token is saved exactly when a token reply has just brought it.
pub proof fn refresh_token_is_saved_at_once(
    command: CommandView,
    events: Seq<EventView>,
    refresh_token: Seq<char>,
)
    requires
        history(command, events),
    ensures
        last_step(command, events).action == ActionView::SaveRefreshToken(refresh_token) <==> {
            &&& events.len() > 0
            &&& events.last() matches EventView::Token(Some(token))
            &&& token.refresh_token == Some(refresh_token)
        },
{
    if events.len() > 0 {
        lemma_history_remembers(command, events.drop_last());
    }
}

/// A session fails exactly when the callback server stopped without a code, the token reply
/// held no token, or what it waited for failed.
pub proof fn sessions_fail_only_for_a_reason(command: CommandView, events: Seq<EventView>)
    requires
        history(command, events),
    ensures
        last_step(command, events).action is Fail <==> events.len() > 0 && {
            ||| events.last() == EventView::Callback(None)
            ||| events.last() == EventView::Token(None)
            ||| events.last() is Failed
        },
        last_step(command, events).action matches ActionView::Fail(message) ==> message == (
        match events.last() {
            EventView::Failed(reason) => reason,
            _ => "Failed to get token"@,
        }),
{
    if events.len() > 0 {
        lemma_history_remembers(command, events.drop_last());
    }
}

/// A request or a saving that fails ends the session with its own message: nothing more is
/// printed, sent or saved, and no event is awaited any more.
pub proof fn failures_end_the_session(
    command: CommandView,
    events: Seq<EventView>,
    message: Seq<char>,
    event: EventView,
)
    requires
        history(command, events.push(EventView::Failed(message))),
    ensures
        last_step(command, events.push(EventView::Failed(message))) == (StepView {
            lines: seq![],
            action: ActionView::Fail(message),
        }),
        !history(command, events.push(EventView::Failed(message)).push(event)),
{
    let all = events.push(EventView::Failed(message));
    lemma_history_front(command, all);
    assert(all.push(event).drop_last() =~= all);
    if history(command, all.push(event)) {
        lemma_history_front(command, all.push(event));
    }
}

/// Any request and any saving of a token may fail, and nothing else.
pub proof fn requests_and_savings_may_fail(
    command: CommandView,
    events: Seq<EventView>,
    message: Seq<char>,
)
    requires
        history(command, events),
    ensures
        history(command, events.push(EventView::Failed(message))) <==> {
            ||| last_step(command, events).action is Send
            ||| last_step(command, events).action is SaveRefreshToken
        },
{
    let all = events.push(EventView::Failed(message));
    assert(all.drop_last() =~= events);
    sessions_await_their_answers(command, events, EventView::Failed(message));
}

/// Whether an event is the last page of the user's playlists.
pub open spec fn is_last_playlist_page(event: EventView) -> bool {
    event matches EventView::UserPlaylists(page) && page.next is None
}

/// Two stages that differ in the prefix alone.
spec fn same_but_prefix(left: StageView, right: StageView) -> bool {
    match (left, right) {
        (
            StageView::ListingPlaylists { access_token: t1, played: p1, found: f1, .. },
            StageView::ListingPlaylists { access_token: t2, played: p2, found: f2, .. },
        ) => t1 == t2 && p1 == p2 && f1 == f2,
        _ => left == right && !(left is ListingPlaylists) && !(right is ListingPlaylists),
    }
}

/// Which pages of the user's playlists are asked for does not depend on the prefix: until the
/// last page has come, whatever matched before, two prefixes lead to the same steps.
pub proof fn listing_does_not_depend_on_the_prefix(
    left: RecentArgsView,
    right: RecentArgsView,
    events: Seq<EventView>,
)
    requires
        left.num_songs == right.num_songs,
        left.prefix is Some,
        right.prefix is Some,
        history(CommandView::Recent(left), events),
        forall|i: int| 0 <= i < events.len() ==> !is_last_playlist_page(#[trigger] events[i]),
    ensures
        history(CommandView::Recent(right), events),
        run(model::first(CommandView::Recent(left)).0, events).1 == run(
            model::first(CommandView::Recent(right)).0,
            events,
        ).1,
        last_step(CommandView::Recent(left), events) == last_step(
            CommandView::Recent(right),
            events,
        ),
{
    lemma_listing_is_the_same(left, right, events);
}

/// The same, with the states behind it.
proof fn lemma_listing_is_the_same(
    left: RecentArgsView,
    right: RecentArgsView,
    events: Seq<EventView>,
)
    requires
        left.num_songs == right.num_songs,
        left.prefix is Some,
        right.prefix is Some,
        history(CommandView::Recent(left), events),
        forall|i: int| 0 <= i < events.len() ==> !is_last_playlist_page(#[trigger] events[i]),
    ensures
        history(CommandView::Recent(right), events),
        run(model::first(CommandView::Recent(left)).0, events).1 == run(
            model::first(CommandView::Recent(right)).0,
            events,
        ).1,
        same_but_prefix(
            state_after(CommandView::Recent(left), events).stage,
            state_after(CommandView::Recent(right), events).stage,
        ),
    decreases events.len(),
{
    if events.len() > 0 {
        let front = events.drop_last();
        assert(forall|i: int| 0 <= i < front.len() ==> front[i] == events[i]);
        assert(events[events.len() - 1] == events.last());
        lemma_history_front(CommandView::Recent(left), events);
        lemma_listing_is_the_same(left, right, front);
        lemma_history_remembers(CommandView::Recent(left), front);
        lemma_history_remembers(CommandView::Recent(right), front);
    }
}

/// The `refresh` command deletes the playlist that it has just created, and nothing else is
/// ever deleted.
pub proof fn only_the_scratch_playlist_is_deleted(
    command: CommandView,
    events: Seq<EventView>,
    request: RequestView,
)
    requires
        history(command, events),
    ensures
        last_step(command, events).action == ActionView::Send(request) && request.method
            == Method::Delete ==> {
            &&& command is Refresh
            &&& events.len() > 0
            &&& events.last() matches EventView::PlaylistCreated(created)
            &&& request == requests::delete_playlist_view(created.uri, access_token(events)->0)
        },
        command is Refresh && events.len() > 0 ==> {
            events.last() matches EventView::PlaylistCreated(created) ==> last_step(
                command,
                events,
            ).action == ActionView::Send(
                requests::delete_playlist_view(created.uri, access_token(events)->0),
            )
        },
{
    if events.len() > 0 {
        let front = events.drop_last();
        lemma_history_remembers(command, front);
        assert(front.push(events.last()) =~= events);
    }
}

/// The `recent` command creates a playlist only where it has no prefix to go by, and then
/// under the name that it was given.
pub proof fn playlists_are_created_by_name_alone(
    args: RecentArgsView,
    events: Seq<EventView>,
    request: RequestView,
)
    requires
        history(CommandView::Recent(args), events),
        last_step(CommandView::Recent(args), events).action == ActionView::Send(request),
        request.body is NewPlaylist,
    ensures
        args.prefix is None,
        args.name matches Some(name) && request.body->NewPlaylist_0.name == name,
{
    assert(events.len() > 0);
    lemma_history_remembers(CommandView::Recent(args), events.drop_last());
}

/// Once all the user's playlists are listed, the first that matches the prefix is opened;
/// where none matches, the session stops and no playlist is touched.
pub proof fn first_match_is_opened(
    args: RecentArgsView,
    events: Seq<EventView>,
    page: PageView<PlaylistView>,
)
    requires
        history(CommandView::Recent(args), events.push(EventView::UserPlaylists(page))),
        page.next is None,
    ensures
        ({
            let all = events.push(EventView::UserPlaylists(page));
            let matches = playlists::matching(listed_playlists(all), args.prefix->0);
            &&& args.prefix is Some
            &&& last_step(CommandView::Recent(args), all).action == if matches.len() == 0 {
                ActionView::Finish
            } else {
                ActionView::Send(
                    requests::page_view(
                        requests::playlist_items_url_view(matches[0].id),
                        Reply::PlaylistItems,
                        access_token(all)->0,
                    ),
                )
            }
        }),
{
    let all = events.push(EventView::UserPlaylists(page));
    assert(all.drop_last() =~= events);
    lemma_history_remembers(CommandView::Recent(args), events);
}

/// A page of the user's playlists that names the page behind it is followed by a request for that page.
pub proof fn every_page_of_playlists_is_asked_for(
    command: CommandView,
    events: Seq<EventView>,
    page: PageView<PlaylistView>,
)
    requires
        history(command, events.push(EventView::UserPlaylists(page))),
        page.next is Some,
    ensures
        last_step(command, events.push(EventView::UserPlaylists(page))).action == ActionView::Send(
            requests::page_view(page.next->0, Reply::UserPlaylists, access_token(events)->0),
        ),
{
    assert(events.push(EventView::UserPlaylists(page)).drop_last() =~= events);
    lemma_history_remembers(command, events);
}

/// A page of a playlist that names the page behind it is followed by a request for that page.
pub proof fn every_page_of_tracks_is_asked_for(
    command: CommandView,
    events: Seq<EventView>,
    page: PageView<TrackView>,
)
    requires
        history(command, events.push(EventView::PlaylistItems(page))),
        page.next is Some,
    ensures
        last_step(command, events.push(EventView::PlaylistItems(page))).action == ActionView::Send(
            requests::page_view(page.next->0, Reply::PlaylistItems, access_token(events)->0),
        ),
{
    assert(events.push(EventView::PlaylistItems(page)).drop_last() =~= events);
    lemma_history_remembers(command, events);
}

/// A playlist is followed exactly when tracks have just been added to it without fail.
pub proof fn playlists_are_followed_after_additions(
    args: RecentArgsView,
    events: Seq<EventView>,
    request: RequestView,
)
    requires
        history(CommandView::Recent(args), events),
        events.len() > 0,
    ensures
        last_step(CommandView::Recent(args), events).action == ActionView::Send(
            requests::follow_playlist_view(chosen_playlist(args, events), access_token(events)->0),
        ) <==> {
            &&& last_step(
                CommandView::Recent(args),
                events.drop_last(),
            ).action matches ActionView::Send(addition)
            &&& addition.body is AddTracks
            &&& events.last() is Sent
        },
        last_step(CommandView::Recent(args), events).action == ActionView::Send(request)
            && request.method == Method::Put ==> request == requests::follow_playlist_view(
            chosen_playlist(args, events),
            access_token(events)->0,
        ),
{
    let command = CommandView::Recent(args);
    let front = events.drop_last();
    lemma_history_front(command, events);
    lemma_history_remembers(command, front);
    assert(front.push(events.last()) =~= events);
    if front.len() > 0 {
        lemma_history_front(command, front);
        lemma_history_remembers(command, front.drop_last());
    }
}

/// A history grows by an event exactly when that event is awaited, and what it leads to goes by
/// the state before and by nothing else.
pub proof fn histories_grow_by_awaited_events(
    command: CommandView,
    events: Seq<EventView>,
    event: EventView,
)
    ensures
        history(command, seq![]),
        state_after(command, seq![]) == model::first(command).0,
        last_step(command, seq![]) == model::first(command).1,
        history(command, events.push(event)) <==> {
            &&& history(command, events)
            &&& state_after(command, events).awaits(event)
        },
        (state_after(command, events.push(event)), last_step(command, events.push(event)))
            == model::next(state_after(command, events), event),
{
    assert(events.push(event).drop_last() =~= events);
}

/// After every history, what is awaited can be read off the last action: the result of what is
/// to be read, made, opened or saved, the reply that a request is sent for, or, of a request
/// and a saving, that it failed. Where the session has finished or failed nothing is awaited.
pub proof fn the_last_action_says_what_is_awaited(
    command: CommandView,
    events: Seq<EventView>,
    event: EventView,
)
    requires
        history(command, events),
    ensures
        state_after(command, events).awaits(event) <==> {
            let action = last_step(command, events).action;
            ||| action is ReadRefreshToken && event is SavedToken
            ||| action is CreateVerifier && event is Verifier
            ||| action is OpenBrowser && event is BrowserOpened
            ||| action is AwaitCallback && event is Callback
            ||| action is SaveRefreshToken && (event is TokenSaved || event is Failed)
            ||| action is Send && event is Failed
            ||| action is Send && action->Send_0.reply == Reply::Token && event is Token
            ||| action is Send && action->Send_0.reply == Reply::RecentlyPlayed && event
                is RecentlyPlayed
            ||| action is Send && action->Send_0.reply == Reply::UserPlaylists && event
                is UserPlaylists
            ||| action is Send && action->Send_0.reply == Reply::PlaylistItems && event
                is PlaylistItems
            ||| action is Send && action->Send_0.reply == Reply::PlaylistCreated && event
                is PlaylistCreated
            ||| action is Send && action->Send_0.reply == Reply::Ignored && event is Sent
        },
{
    sessions_await_their_answers(command, events, event);
}

/// A URI is among the played tracks exactly when some event reported a track with it.
proof fn lemma_played_uris(events: Seq<EventView>, uri: Seq<char>)
    ensures
        tracks::uris_of(played_tracks(events)).contains(uri) <==> exists|k: int, j: int|
            {
                &&& 0 <= k < events.len()
                &&& events[k] is RecentlyPlayed
                &&& 0 <= j < events[k]->RecentlyPlayed_0.len()
                &&& (#[trigger] events[k]->RecentlyPlayed_0[j]).uri == uri
            },
    decreases events.len(),
{
    if events.len() > 0 {
        let front = events.drop_last();
        let last = events.len() - 1;
        lemma_played_uris(front, uri);
        let before = tracks::uris_of(played_tracks(front));
        let all = tracks::uris_of(played_tracks(events));
        assert(forall|k: int| 0 <= k < last ==> front[k] == events[k]);
        if all.contains(uri) {
            let i = choose|i: int| 0 <= i < all.len() && all[i] == uri;
            if i < before.len() {
                assert(before[i] == uri);
                let (k, j) = choose|k: int, j: int|
                    {
                        &&& 0 <= k < front.len()
                        &&& front[k] is RecentlyPlayed
                        &&& 0 <= j < front[k]->RecentlyPlayed_0.len()
                        &&& (#[trigger] front[k]->RecentlyPlayed_0[j]).uri == uri
                    };
                assert(events[k]->RecentlyPlayed_0[j].uri == uri);
            } else {
                assert(events[last]->RecentlyPlayed_0[i - before.len()].uri == uri);
            }
        }
        if exists|k: int, j: int|
            {
                &&& 0 <= k < events.len()
                &&& events[k] is RecentlyPlayed
                &&& 0 <= j < events[k]->RecentlyPlayed_0.len()
                &&& (#[trigger] events[k]->RecentlyPlayed_0[j]).uri == uri
            } {
            let (k, j) = choose|k: int, j: int|
                {
                    &&& 0 <= k < events.len()
                    &&& events[k] is RecentlyPlayed
                    &&& 0 <= j < events[k]->RecentlyPlayed_0.len()
                    &&& (#[trigger] events[k]->RecentlyPlayed_0[j]).uri == uri
                };
            if k < last {
                assert(front[k]->RecentlyPlayed_0[j].uri == uri);
                let i = choose|i: int| 0 <= i < before.len() && before[i] == uri;
                assert(all[i] == uri);
            } else {
                assert(all[before.len() + j] == uri);
            }
        }
    }
}

/// A URI is among the listed tracks exactly when some page of the playlist held a track with it.
proof fn lemma_listed_uris(events: Seq<EventView>, uri: Seq<char>)
    ensures
        tracks::uris_of(listed_tracks(events)).contains(uri) <==> exists|k: int, j: int|
            {
                &&& 0 <= k < events.len()
                &&& events[k] is PlaylistItems
                &&& 0 <= j < events[k]->PlaylistItems_0.items.len()
                &&& (#[trigger] events[k]->PlaylistItems_0.items[j]).uri == uri
            },
    decreases events.len(),
{
    if events.len() > 0 {
        let front = events.drop_last();
        let last = events.len() - 1;
        lemma_listed_uris(front, uri);
        let before = tracks::uris_of(listed_tracks(front));
        let all = tracks::uris_of(listed_tracks(events));
        assert(forall|k: int| 0 <= k < last ==> front[k] == events[k]);
        if all.contains(uri) {
            let i = choose|i: int| 0 <= i < all.len() && all[i] == uri;
            if i < before.len() {
                assert(before[i] == uri);
                let (k, j) = choose|k: int, j: int|
                    {
                        &&& 0 <= k < front.len()
                        &&& front[k] is PlaylistItems
                        &&& 0 <= j < front[k]->PlaylistItems_0.items.len()
                        &&& (#[trigger] front[k]->PlaylistItems_0.items[j]).uri == uri
                    };
                assert(events[k]->PlaylistItems_0.items[j].uri == uri);
            } else {
                assert(events[last]->PlaylistItems_0.items[i - before.len()].uri == uri);
            }
        }
        if exists|k: int, j: int|
            {
                &&& 0 <= k < events.len()
                &&& events[k] is PlaylistItems
                &&& 0 <= j < events[k]->PlaylistItems_0.items.len()
                &&& (#[trigger] events[k]->PlaylistItems_0.items[j]).uri == uri
            } {
            let (k, j) = choose|k: int, j: int|
                {
                    &&& 0 <= k < events.len()
                    &&& events[k] is PlaylistItems
                    &&& 0 <= j < events[k]->PlaylistItems_0.items.len()
                    &&& (#[trigger] events[k]->PlaylistItems_0.items[j]).uri == uri
                };
            if k < last {
                assert(front[k]->PlaylistItems_0.items[j].uri == uri);
                let i = choose|i: int| 0 <= i < before.len() && before[i] == uri;
                assert(all[i] == uri);
            } else {
                assert(all[before.len() + j] == uri);
            }
        }
    }
}

/// Whatever was played and however many pages the chosen playlist has: after its last page,
/// the tracks that some event reported as played and that no page held are added in one
/// request, each once and all at the top. The number printed is the number of tracks sent, and
/// without such a track nothing is sent.
pub proof fn played_and_absent_tracks_are_added(
    args: RecentArgsView,
    events: Seq<EventView>,
    page: PageView<TrackView>,
    uri: Seq<char>,
)
    requires
        history(CommandView::Recent(args), events.push(EventView::PlaylistItems(page))),
        page.next is None,
    ensures
        ({
            let all = events.push(EventView::PlaylistItems(page));
            let step = last_step(CommandView::Recent(args), all);
            let wanted = {
                &&& exists|k: int, j: int|
                    {
                        &&& 0 <= k < all.len()
                        &&& all[k] is RecentlyPlayed
                        &&& 0 <= j < all[k]->RecentlyPlayed_0.len()
                        &&& (#[trigger] all[k]->RecentlyPlayed_0[j]).uri == uri
                    }
                &&& !exists|k: int, j: int|
                    {
                        &&& 0 <= k < all.len()
                        &&& all[k] is PlaylistItems
                        &&& 0 <= j < all[k]->PlaylistItems_0.items.len()
                        &&& (#[trigger] all[k]->PlaylistItems_0.items[j]).uri == uri
                    }
            };
            match step.action {
                ActionView::Finish => {
                    &&& !wanted
                    &&& step.lines.last() == "Adding "@ + text::decimal_digits(0)
                        + " songs to playlist"@
                },
                ActionView::Send(request) => {
                    &&& request.method == Method::Post
                    &&& request.url == "https://api.spotify.com/v1/playlists/"@
                        + chosen_playlist(args, all) + "/items"@
                    &&& request.body matches BodyView::AddTracks(sent)
                    &&& sent.position == 0
                    &&& sent.uris.len() > 0
                    &&& sent.uris.no_duplicates()
                    &&& sent.uris.contains(uri) <==> wanted
                    &&& step.lines.last() == "Adding "@ + text::decimal_digits(sent.uris.len())
                        + " songs to playlist"@
                },
                _ => false,
            }
        }),
{
    let command = CommandView::Recent(args);
    let all = events.push(EventView::PlaylistItems(page));
    assert(all.drop_last() =~= events);
    lemma_history_front(command, all);
    lemma_history_remembers(command, events);
    assert(tracks::uris_of(listed_tracks(all)) =~= tracks::uris_of(listed_tracks(events))
        + tracks::uris_of(page.items));
    owed_tracks_are_played_and_absent(all, uri);
    lemma_played_uris(all, uri);
    lemma_listed_uris(all, uri);
    if owed_tracks(all).len() == 0 {
        assert(!owed_tracks(all).contains(uri));
    }
}

/// Wherever the user's playlists go on behind a page, the next request is for the page behind
/// it, at the URL that the page names, character for character.
pub proof fn pages_of_playlists_are_asked_for_at_their_url(
    command: CommandView,
    events: Seq<EventView>,
    page: PageView<PlaylistView>,
    url: Seq<char>,
)
    requires
        history(command, events.push(EventView::UserPlaylists(page))),
        page.next == Some(url),
    ensures
        last_step(
            command,
            events.push(EventView::UserPlaylists(page)),
        ).action matches ActionView::Send(request) && {
            &&& request.method == Method::Get
            &&& request.url.len() == url.len()
            &&& forall|i: int| 0 <= i < url.len() ==> #[trigger] request.url[i] == url[i]
            &&& request.body is Empty
            &&& request.reply == Reply::UserPlaylists
        },
{
    let all = events.push(EventView::UserPlaylists(page));
    assert(all.drop_last() =~= events);
    lemma_history_front(command, all);
}

/// Wherever a playlist goes on behind a page, the next request is for the page behind it, at
/// the URL that the page names, character for character.
pub proof fn pages_of_tracks_are_asked_for_at_their_url(
    command: CommandView,
    events: Seq<EventView>,
    page: PageView<TrackView>,
    url: Seq<char>,
)
    requires
        history(command, events.push(EventView::PlaylistItems(page))),
        page.next == Some(url),
    ensures
        last_step(
            command,
            events.push(EventView::PlaylistItems(page)),
        ).action matches ActionView::Send(request) && {
            &&& request.method == Method::Get
            &&& request.url.len() == url.len()
            &&& forall|i: int| 0 <= i < url.len() ==> #[trigger] request.url[i] == url[i]
            &&& request.body is Empty
            &&& request.reply == Reply::PlaylistItems
        },
{
    let all = events.push(EventView::PlaylistItems(page));
    assert(all.drop_last() =~= events);
    lemma_history_front(command, all);
}

/// Whenever a callback brings a code, that code goes out whole in the form of the next request,
/// and with it the whole verifier that was made two events before.
pub proof fn codes_are_traded_with_their_verifier(
    command: CommandView,
    events: Seq<EventView>,
    code: Seq<char>,
)
    requires
        history(command, events.push(EventView::Callback(Some(code)))),
    ensures
        events.len() >= 2,
        events[events.len() - 2] is Verifier,
        last_step(
            command,
            events.push(EventView::Callback(Some(code))),
        ).action matches ActionView::Send(request) && {
            &&& request.method == Method::Post
            &&& request.url == "https://accounts.spotify.com/api/token"@
            &&& request.body matches BodyView::Form(fields)
            &&& fields.contains(("grant_type"@, "authorization_code"@))
            &&& fields.contains(("code"@, code))
            &&& fields.contains(("code_verifier"@, events[events.len() - 2]->Verifier_0))
        },
{
    let all = events.push(EventView::Callback(Some(code)));
    assert(all.drop_last() =~= events);
    lemma_history_front(command, all);
    code_verifier_matches_challenge(command, all, code);
    let code_verifier = events[events.len() - 2]->Verifier_0;
    lemma_history_front(command, events);
    let opening = events.drop_last();
    lemma_history_front(command, opening);
    assert(opening.last() == events[events.len() - 2]);
    assert(state_after(command, events).stage == (StageView::AwaitingCallback { code_verifier }));
    steps::code_is_traded_with_the_verifier(state_after(command, events), code_verifier, code);
    let request = last_step(command, all).action->Send_0;
    let fields = request.body->Form_0;
    assert(fields.contains(fields[0]));
    assert(fields.contains(fields[1]));
    assert(fields.contains(fields[4]));
}

/// With a name and no prefix, whatever was played and however many tracks it was, the next
/// request creates a playlist of that name.
pub proof fn named_playlists_are_created_whatever_was_played(
    args: RecentArgsView,
    events: Seq<EventView>,
    played: Seq<TrackView>,
    name: Seq<char>,
)
    requires
        history(CommandView::Recent(args), events.push(EventView::RecentlyPlayed(played))),
        args.prefix is None,
        args.name == Some(name),
    ensures
        last_step(
            CommandView::Recent(args),
            events.push(EventView::RecentlyPlayed(played)),
        ).action matches ActionView::Send(request) && {
            &&& request.method == Method::Post
            &&& request.url == "https://api.spotify.com/v1/me/playlists"@
            &&& request.reply == Reply::PlaylistCreated
            &&& request.body matches BodyView::NewPlaylist(playlist)
            &&& playlist.name == name
            &&& playlist.description == "NA"@
        },
{
    let all = events.push(EventView::RecentlyPlayed(played));
    assert(all.drop_last() =~= events);
    lemma_history_front(CommandView::Recent(args), all);
    lemma_history_remembers(CommandView::Recent(args), events);
}

/// With a prefix, whatever was played, the next request is for the first page of the user's
/// playlists, and none is created.
pub proof fn playlists_are_listed_whatever_was_played(
    args: RecentArgsView,
    events: Seq<EventView>,
    played: Seq<TrackView>,
)
    requires
        history(CommandView::Recent(args), events.push(EventView::RecentlyPlayed(played))),
        args.prefix is Some,
    ensures
        last_step(
            CommandView::Recent(args),
            events.push(EventView::RecentlyPlayed(played)),
        ).action matches ActionView::Send(request) && {
            &&& request.method == Method::Get
            &&& request.url == "https://api.spotify.com/v1/me/playlists"@
            &&& request.reply == Reply::UserPlaylists
            &&& request.body is Empty
        },
{
    let all = events.push(EventView::RecentlyPlayed(played));
    assert(all.drop_last() =~= events);
    lemma_history_front(CommandView::Recent(args), all);
    lemma_history_remembers(CommandView::Recent(args), events);
}

/// Every played track is printed by its name, in the order in which it came, whatever the
/// command goes on to do.
pub proof fn played_tracks_are_printed(
    args: RecentArgsView,
    events: Seq<EventView>,
    played: Seq<TrackView>,
)
    requires
        history(CommandView::Recent(args), events.push(EventView::RecentlyPlayed(played))),
    ensures
        ({
            let lines = last_step(
                CommandView::Recent(args),
                events.push(EventView::RecentlyPlayed(played)),
            ).lines;
            &&& lines.len() == played.len()
            &&& forall|i: int| 0 <= i < played.len() ==> #[trigger] lines[i] == played[i].name
        }),
{
    let all = events.push(EventView::RecentlyPlayed(played));
    assert(all.drop_last() =~= events);
    lemma_history_front(CommandView::Recent(args), all);
    lemma_history_remembers(CommandView::Recent(args), events);
}

} // verus!
