//! Sets of tracks: which tracks were played, and which of them a playlist lacks.

use crate::api::{
    AddTracksRequest, AddTracksView, PlaylistItemsResponse, SpotifyRecentlyPlayedResponse,
    TrackView,
};
use vstd::prelude::*;
use vstd::string::*;

verus! {

/// The URIs of tracks, one for each.
pub open spec fn uris_of(tracks: Seq<TrackView>) -> Seq<Seq<char>> {
    tracks.map_values(|track: TrackView| track.uri)
}

/// The names of tracks, one for each.
pub open spec fn names_of(tracks: Seq<TrackView>) -> Seq<Seq<char>> {
    tracks.map_values(|track: TrackView| track.name)
}

/// A list with one more item, unless it held that item before.
pub open spec fn inserted(list: Seq<Seq<char>>, item: Seq<char>) -> Seq<Seq<char>> {
    if list.contains(item) {
        list
    } else {
        list.push(item)
    }
}

/// The items of a list, each once, in the order in which they first occur.
pub open spec fn distinct(list: Seq<Seq<char>>) -> Seq<Seq<char>>
    decreases list.len(),
{
    if list.len() == 0 {
        Seq::empty()
    } else {
        inserted(distinct(list.drop_last()), list.last())
    }
}

/// The tracks of `played` that `present` lacks, in the order of `played`.
pub open spec fn missing(played: Seq<Seq<char>>, present: Seq<Seq<char>>) -> Seq<Seq<char>> {
    played.filter(|uri: Seq<char>| !present.contains(uri))
}

/// The body that puts tracks at the top of a playlist.
pub open spec fn at_the_top(uris: Seq<Seq<char>>) -> AddTracksView {
    AddTracksView { uris, position: 0 }
}

/// A set of track URIs, kept in the order in which they came.
pub struct UriSet {
    uris: Vec<String>,
}

impl DeepView for UriSet {
    type V = Seq<Seq<char>>;

    closed spec fn deep_view(&self) -> Seq<Seq<char>> {
        self.uris.deep_view()
    }
}

impl UriSet {
    /// No URI occurs twice.
    pub open spec fn well_formed(&self) -> bool {
        self.deep_view().no_duplicates()
    }

    /// The empty set.
    pub fn new() -> (set: UriSet)
        ensures
            set.well_formed(),
            set.deep_view() == Seq::<Seq<char>>::empty(),
    {
        let set = UriSet { uris: Vec::new() };
        assert(set.deep_view() =~= Seq::<Seq<char>>::empty());
        set
    }

    /// Adds a URI, unless it is there.
    pub fn insert(&mut self, uri: String)
        requires
            old(self).well_formed(),
        ensures
            final(self).well_formed(),
            final(self).deep_view() == inserted(old(self).deep_view(), uri@),
    {
        if !contains_uri(&self.uris, uri.as_str()) {
            self.uris.push(uri);
            assert(self.deep_view() =~= old(self).deep_view().push(uri@));
        }
    }

    /// Takes out every URI that `present` holds.
    pub fn remove_all(&mut self, present: &Vec<String>)
        requires
            old(self).well_formed(),
        ensures
            final(self).well_formed(),
            final(self).deep_view() == missing(old(self).deep_view(), present.deep_view()),
    {
        let ghost all = self.uris.deep_view();
        let ghost is_missing = |uri: Seq<char>| !present.deep_view().contains(uri);
        let mut kept: Vec<String> = Vec::new();
        assert(kept.deep_view() =~= all.take(0).filter(is_missing)) by {
            reveal(Seq::filter);
        }
        let mut index: usize = 0;
        while index < self.uris.len()
            invariant
                index <= self.uris.len(),
                all == self.uris.deep_view(),
                is_missing == |uri: Seq<char>| !present.deep_view().contains(uri),
                kept.deep_view() == all.take(index as int).filter(is_missing),
            decreases self.uris.len() - index,
        {
            proof {
                reveal(Seq::filter);
                assert(all.take(index + 1).drop_last() =~= all.take(index as int));
            }
            let ghost before = kept.deep_view();
            if !contains_uri(present, self.uris[index].as_str()) {
                kept.push(self.uris[index].clone());
                assert(kept.deep_view() =~= before.push(all[index as int]));
            }
            index = index + 1;
        }
        assert(all.take(index as int) =~= all);
        proof {
            missing_is_difference(all, present.deep_view());
        }
        self.uris = kept;
    }

    /// How many URIs there are.
    pub fn len(&self) -> (length: usize)
        ensures
            length == self.deep_view().len(),
    {
        self.uris.len()
    }

    /// The URIs, in the order in which they came.
    pub fn into_uris(self) -> (uris: Vec<String>)
        ensures
            uris.deep_view() == self.deep_view(),
    {
        self.uris
    }
}

/// Whether a list holds a URI.
fn contains_uri(uris: &Vec<String>, uri: &str) -> (found: bool)
    ensures
        found == uris.deep_view().contains(uri@),
{
    let wanted = uri.to_string();
    let mut index: usize = 0;
    while index < uris.len()
        invariant
            index <= uris.len(),
            wanted@ == uri@,
            forall|i: int| 0 <= i < index ==> uris.deep_view()[i] != uri@,
        decreases uris.len() - index,
    {
        if uris[index] == wanted {
            assert(uris.deep_view()[index as int] == uri@);
            return true;
        }
        index = index + 1;
    }
    false
}

/// The set of the tracks that were played.
pub fn recently_played_uris(response: &SpotifyRecentlyPlayedResponse) -> (played: UriSet)
    ensures
        played.well_formed(),
        played.deep_view() == distinct(uris_of(response.deep_view())),
{
    let ghost all = uris_of(response.deep_view());
    let mut played = UriSet::new();
    assert(all.take(0) =~= Seq::<Seq<char>>::empty());
    let mut index: usize = 0;
    while index < response.items.len()
        invariant
            index <= response.items.len(),
            all == uris_of(response.deep_view()),
            played.well_formed(),
            played.deep_view() == distinct(all.take(index as int)),
        decreases response.items.len() - index,
    {
        proof {
            assert(all.take(index + 1).drop_last() =~= all.take(index as int));
            assert(all.take(index + 1).last() == response.items@[index as int].track.uri@);
        }
        played.insert(response.items[index].track.uri.clone());
        index = index + 1;
    }
    assert(all.take(index as int) =~= all);
    played
}

/// Appends the tracks of one page of a playlist to those of the pages before.
pub fn append_page(songs: &mut Vec<String>, page: &PlaylistItemsResponse)
    ensures
        final(songs).deep_view() == old(songs).deep_view() + uris_of(page.deep_view().items),
{
    let ghost before = songs.deep_view();
    let ghost all = uris_of(page.deep_view().items);
    assert(before =~= before + all.take(0));
    let mut index: usize = 0;
    while index < page.items.len()
        invariant
            index <= page.items.len(),
            all == uris_of(page.deep_view().items),
            songs.deep_view() == before + all.take(index as int),
        decreases page.items.len() - index,
    {
        let ghost prior = songs.deep_view();
        songs.push(page.items[index].item.uri.clone());
        assert(songs.deep_view() =~= prior.push(all[index as int]));
        assert(all.take(index + 1) =~= all.take(index as int).push(all[index as int]));
        index = index + 1;
    }
    assert(all.take(index as int) =~= all);
}

/// The names of the tracks that were played, in order.
pub fn recently_played_names(response: &SpotifyRecentlyPlayedResponse) -> (names: Vec<String>)
    ensures
        names.deep_view() == names_of(response.deep_view()),
{
    let ghost all = names_of(response.deep_view());
    let mut names: Vec<String> = Vec::new();
    assert(names.deep_view() =~= all.take(0));
    let mut index: usize = 0;
    while index < response.items.len()
        invariant
            index <= response.items.len(),
            all == names_of(response.deep_view()),
            names.deep_view() == all.take(index as int),
        decreases response.items.len() - index,
    {
        let ghost prior = names.deep_view();
        names.push(response.items[index].track.name.clone());
        assert(names.deep_view() =~= prior.push(all[index as int]));
        assert(all.take(index + 1) =~= prior.push(all[index as int]));
        index = index + 1;
    }
    assert(all.take(index as int) =~= all);
    names
}

/// The names of the tracks on one page of a playlist, in order.
pub fn page_names(page: &PlaylistItemsResponse) -> (names: Vec<String>)
    ensures
        names.deep_view() == names_of(page.deep_view().items),
{
    let ghost all = names_of(page.deep_view().items);
    let mut names: Vec<String> = Vec::new();
    assert(names.deep_view() =~= all.take(0));
    let mut index: usize = 0;
    while index < page.items.len()
        invariant
            index <= page.items.len(),
            all == names_of(page.deep_view().items),
            names.deep_view() == all.take(index as int),
        decreases page.items.len() - index,
    {
        let ghost prior = names.deep_view();
        names.push(page.items[index].item.name.clone());
        assert(names.deep_view() =~= prior.push(all[index as int]));
        assert(all.take(index + 1) =~= prior.push(all[index as int]));
        index = index + 1;
    }
    assert(all.take(index as int) =~= all);
    names
}

/// The body that puts a set of tracks at the top of a playlist.
pub fn add_at_the_top(tracks: UriSet) -> (body: AddTracksRequest)
    ensures
        body.deep_view() == at_the_top(tracks.deep_view()),
{
    AddTracksRequest { uris: tracks.into_uris(), position: 0 }
}

/// Listing each item once keeps exactly the items of the list, and none twice.
pub proof fn distinct_keeps_each_item_once(list: Seq<Seq<char>>)
    ensures
        distinct(list).no_duplicates(),
        forall|item: Seq<char>| #[trigger] distinct(list).contains(item) <==> list.contains(item),
    decreases list.len(),
{
    if list.len() > 0 {
        let front = list.drop_last();
        distinct_keeps_each_item_once(front);
        assert forall|item: Seq<char>| #[trigger] distinct(list).contains(item)
            <==> list.contains(item) by {
            assert(list =~= front.push(list.last()));
            assert(distinct(front).contains(item) <==> front.contains(item));
            if list.contains(item) && item != list.last() {
                let i = choose|i: int| 0 <= i < list.len() && list[i] == item;
                assert(front[i] == item);
            }
            if front.contains(item) {
                let i = choose|i: int| 0 <= i < front.len() && front[i] == item;
                assert(list[i] == item);
            }
            if distinct(front).contains(item) && !distinct(front).contains(list.last()) {
                let i = choose|i: int| 0 <= i < distinct(front).len() && distinct(front)[i] == item;
                assert(distinct(list)[i] == item);
            }
            if !distinct(front).contains(list.last()) {
                assert(distinct(list)[distinct(front).len() as int] == list.last());
            }
            assert(list[list.len() - 1] == list.last());
        }
    }
}

/// The missing tracks are those that were played and are not present; where none was played
/// twice, none is missing twice.
pub proof fn missing_is_difference(played: Seq<Seq<char>>, present: Seq<Seq<char>>)
    ensures
        forall|uri: Seq<char>| #[trigger]
            missing(played, present).contains(uri) <==> played.contains(uri) && !present.contains(
                uri,
            ),
        played.no_duplicates() ==> missing(played, present).no_duplicates(),
    decreases played.len(),
{
    reveal(Seq::filter);
    if played.len() > 0 {
        let front = played.drop_last();
        let last = played.last();
        missing_is_difference(front, present);
        let rest = missing(front, present);
        let all = missing(played, present);
        assert forall|uri: Seq<char>| #[trigger] all.contains(uri) <==> played.contains(uri)
            && !present.contains(uri) by {
            assert(rest.contains(uri) <==> front.contains(uri) && !present.contains(uri));
            if played.contains(uri) && uri != last {
                let i = choose|i: int| 0 <= i < played.len() && played[i] == uri;
                assert(front[i] == uri);
            }
            if front.contains(uri) {
                let i = choose|i: int| 0 <= i < front.len() && front[i] == uri;
                assert(played[i] == uri);
            }
            if rest.contains(uri) {
                let i = choose|i: int| 0 <= i < rest.len() && rest[i] == uri;
                assert(all[i] == uri);
            }
            if !present.contains(last) {
                assert(all[rest.len() as int] == last);
            }
            assert(played[played.len() - 1] == last);
        }
        if played.no_duplicates() {
            assert(front.no_duplicates());
            if !present.contains(last) {
                assert(!rest.contains(last)) by {
                    if front.contains(last) {
                        let i = choose|i: int| 0 <= i < front.len() && front[i] == last;
                        assert(played[i] == played[played.len() - 1]);
                    }
                }
            }
        }
    }
}

/// Once the missing tracks are in the playlist, whatever else it holds, none is missing: the
/// same plays add nothing a second time.
pub proof fn nothing_is_missing_twice(
    played: Seq<Seq<char>>,
    present: Seq<Seq<char>>,
    afterwards: Seq<Seq<char>>,
)
    requires
        forall|uri: Seq<char>| #[trigger] present.contains(uri) ==> afterwards.contains(uri),
        forall|uri: Seq<char>| #[trigger]
            missing(played, present).contains(uri) ==> afterwards.contains(uri),
    ensures
        missing(played, afterwards) == Seq::<Seq<char>>::empty(),
{
    missing_is_difference(played, present);
    missing_is_difference(played, afterwards);
    let again = missing(played, afterwards);
    if again.len() > 0 {
        let uri = again[0];
        assert(again.contains(uri));
        assert(!missing(played, present).contains(uri));
        assert(present.contains(uri));
        assert(false);
    }
}

/// There is one URI for each track, in the same order.
pub proof fn uris_are_those_of_the_tracks(tracks: Seq<TrackView>, index: int)
    requires
        0 <= index < tracks.len(),
    ensures
        uris_of(tracks).len() == tracks.len(),
        uris_of(tracks)[index] == tracks[index].uri,
{
}

/// There is one name for each track, in the same order.
pub proof fn names_are_those_of_the_tracks(tracks: Seq<TrackView>, index: int)
    requires
        0 <= index < tracks.len(),
    ensures
        names_of(tracks).len() == tracks.len(),
        names_of(tracks)[index] == tracks[index].name,
{
}

/// Inserting keeps what was there, in place, and has the new item last if it was not there.
pub proof fn insertion_adds_at_the_end(list: Seq<Seq<char>>, item: Seq<char>)
    ensures
        list.is_prefix_of(inserted(list, item)),
        inserted(list, item).contains(item),
        list.contains(item) ==> inserted(list, item).len() == list.len(),
        !list.contains(item) ==> inserted(list, item).len() == list.len() + 1 && inserted(
            list,
            item,
        ).last() == item,
{
    assert(list =~= inserted(list, item).subrange(0, list.len() as int));
    if !list.contains(item) {
        assert(inserted(list, item)[list.len() as int] == item);
    }
}

/// One more item changes nothing where the list held it before, and comes last otherwise.
pub proof fn distinct_grows_by_new_items(list: Seq<Seq<char>>, item: Seq<char>)
    ensures
        distinct(Seq::empty()).len() == 0,
        list.contains(item) ==> distinct(list.push(item)) == distinct(list),
        !list.contains(item) ==> distinct(list.push(item)) == distinct(list).push(item),
{
    distinct_keeps_each_item_once(list);
    assert(list.push(item).drop_last() =~= list);
    assert(distinct(list).contains(item) <==> list.contains(item));
}

/// One more played track is missing last if it is not present, and not at all otherwise.
pub proof fn missing_grows_by_absent_items(
    played: Seq<Seq<char>>,
    present: Seq<Seq<char>>,
    uri: Seq<char>,
)
    ensures
        missing(Seq::empty(), present).len() == 0,
        present.contains(uri) ==> missing(played.push(uri), present) == missing(played, present),
        !present.contains(uri) ==> missing(played.push(uri), present) == missing(
            played,
            present,
        ).push(uri),
{
    reveal(Seq::filter);
    assert(played.push(uri).drop_last() =~= played);
}

/// All the tracks go to the first position, none left out.
pub proof fn all_tracks_go_to_the_top(uris: Seq<Seq<char>>)
    ensures
        at_the_top(uris).uris == uris,
        at_the_top(uris).position == 0,
{
}

} // verus!
