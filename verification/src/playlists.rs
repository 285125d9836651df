//! The user's playlists, and those whose name starts with a prefix.

use crate::api::{PlaylistView, SimplifiedPlaylistObject};
use crate::text;
use crate::text::matches_prefix;
use vstd::prelude::*;
use vstd::string::*;

verus! {

/// The playlists whose name starts with `prefix`, whatever the case, in order.
pub open spec fn matching(playlists: Seq<PlaylistView>, prefix: Seq<char>) -> Seq<PlaylistView> {
    playlists.filter(|playlist: PlaylistView| text::starts_with_ignoring_case(playlist.name, prefix))
}

/// Keeps the playlists whose name starts with `prefix`, whatever the case, in order.
pub fn playlists_matching_prefix(
    playlists: Vec<SimplifiedPlaylistObject>,
    prefix: &str,
) -> (result: Vec<SimplifiedPlaylistObject>)
    ensures
        result.deep_view() == matching(playlists.deep_view(), prefix@),
{
    let ghost all = playlists.deep_view();
    let ghost is_match = |playlist: PlaylistView| text::starts_with_ignoring_case(playlist.name, prefix@);
    let mut result: Vec<SimplifiedPlaylistObject> = Vec::new();
    assert(result.deep_view() =~= all.take(0).filter(is_match)) by {
        reveal(Seq::filter);
    }
    for playlist in iter: playlists
        invariant
            all.len() == iter.seq().len(),
            forall|i: int| 0 <= i < all.len() ==> all[i] == (#[trigger] iter.seq()[i]).deep_view(),
            is_match == |playlist: PlaylistView| text::starts_with_ignoring_case(playlist.name, prefix@),
            result.deep_view() == all.take(iter.index() as int).filter(is_match),
    {
        let ghost index = iter.index() as int;
        let ghost before = result.deep_view();
        let ghost current = playlist.deep_view();
        proof {
            reveal(Seq::filter);
            assert(current == all[index]);
            assert(all.take(index + 1).drop_last() =~= all.take(index));
        }
        if matches_prefix(playlist.name.as_str(), prefix) {
            result.push(playlist);
            assert(result.deep_view() =~= before.push(current));
        }
    }
    assert(all.take(all.len() as int) =~= all);
    result
}

/// A playlist matches its own name, in whatever case it is written.
pub proof fn own_name_matches(playlist: PlaylistView, prefix: Seq<char>)
    requires
        text::lowercase(prefix) == text::lowercase(playlist.name),
    ensures
        text::starts_with_ignoring_case(playlist.name, prefix),
{
}

/// Prefixes that differ in case alone match the same playlists.
pub proof fn matching_ignores_case(
    playlists: Seq<PlaylistView>,
    left: Seq<char>,
    right: Seq<char>,
)
    requires
        text::lowercase(left) == text::lowercase(right),
    ensures
        matching(playlists, left) == matching(playlists, right),
    decreases playlists.len(),
{
    reveal(Seq::filter);
    if playlists.len() > 0 {
        matching_ignores_case(playlists.drop_last(), left, right);
    }
}

/// The playlists that match are those of the user whose name starts with the prefix.
pub proof fn matching_keeps_the_matches(playlists: Seq<PlaylistView>, prefix: Seq<char>)
    ensures
        forall|playlist: PlaylistView| #[trigger]
            matching(playlists, prefix).contains(playlist) <==> playlists.contains(playlist)
                && text::starts_with_ignoring_case(playlist.name, prefix),
    decreases playlists.len(),
{
    reveal(Seq::filter);
    if playlists.len() > 0 {
        let front = playlists.drop_last();
        let last = playlists.last();
        matching_keeps_the_matches(front, prefix);
        let rest = matching(front, prefix);
        let all = matching(playlists, prefix);
        assert forall|playlist: PlaylistView| #[trigger] all.contains(playlist)
            <==> playlists.contains(playlist) && text::starts_with_ignoring_case(
            playlist.name,
            prefix,
        ) by {
            assert(rest.contains(playlist) <==> front.contains(playlist)
                && text::starts_with_ignoring_case(playlist.name, prefix));
            if playlists.contains(playlist) && playlist != last {
                let i = choose|i: int| 0 <= i < playlists.len() && playlists[i] == playlist;
                assert(front[i] == playlist);
            }
            if front.contains(playlist) {
                let i = choose|i: int| 0 <= i < front.len() && front[i] == playlist;
                assert(playlists[i] == playlist);
            }
            if rest.contains(playlist) {
                let i = choose|i: int| 0 <= i < rest.len() && rest[i] == playlist;
                assert(all[i] == playlist);
            }
            if text::starts_with_ignoring_case(last.name, prefix) {
                assert(all[rest.len() as int] == last);
            }
            assert(playlists[playlists.len() - 1] == last);
        }
    }
}

/// The first playlist that matches is the one that comes before all others that match.
pub proof fn first_match_comes_first(playlists: Seq<PlaylistView>, prefix: Seq<char>) -> (index: int)
    requires
        matching(playlists, prefix).len() > 0,
    ensures
        0 <= index < playlists.len(),
        playlists[index] == matching(playlists, prefix)[0],
        text::starts_with_ignoring_case(playlists[index].name, prefix),
        forall|i: int|
            0 <= i < index ==> !text::starts_with_ignoring_case(
                (#[trigger] playlists[i]).name,
                prefix,
            ),
    decreases playlists.len(),
{
    reveal(Seq::filter);
    let front = playlists.drop_last();
    if matching(front, prefix).len() > 0 {
        let index = first_match_comes_first(front, prefix);
        assert(playlists[index] == front[index]);
        assert forall|i: int| 0 <= i < index implies !text::starts_with_ignoring_case(
            (#[trigger] playlists[i]).name,
            prefix,
        ) by {
            assert(playlists[i] == front[i]);
        }
        index
    } else {
        assert forall|i: int| 0 <= i < front.len() implies !text::starts_with_ignoring_case(
            (#[trigger] playlists[i]).name,
            prefix,
        ) by {
            matching_keeps_the_matches(front, prefix);
            assert(front[i] == playlists[i]);
            assert(front.contains(front[i]));
            assert(!matching(front, prefix).contains(front[i]));
        }
        playlists.len() - 1
    }
}

/// The empty prefix matches every playlist.
pub proof fn empty_prefix_matches_all(playlists: Seq<PlaylistView>)
    ensures
        matching(playlists, Seq::empty()) == playlists,
    decreases playlists.len(),
{
    reveal(Seq::filter);
    if playlists.len() > 0 {
        let last = playlists.last();
        empty_prefix_matches_all(playlists.drop_last());
        assert(text::lowercase(Seq::empty()).len() == 0);
        assert(text::lowercase(Seq::empty()) =~= text::lowercase(last.name).take(0));
        assert(text::starts_with_ignoring_case(last.name, Seq::empty()));
        assert(playlists.drop_last().push(last) =~= playlists);
    }
}

/// A prefix whose lower-case form goes further only drops playlists: what it matches is what
/// it matches among the matches of the shorter one, in the same order.
pub proof fn longer_prefix_only_drops(
    playlists: Seq<PlaylistView>,
    shorter: Seq<char>,
    longer: Seq<char>,
)
    requires
        text::lowercase(shorter).is_prefix_of(text::lowercase(longer)),
    ensures
        matching(playlists, longer) == matching(matching(playlists, shorter), longer),
    decreases playlists.len(),
{
    reveal(Seq::filter);
    if playlists.len() > 0 {
        let front = playlists.drop_last();
        let last = playlists.last();
        longer_prefix_only_drops(front, shorter, longer);
        if text::starts_with_ignoring_case(last.name, longer) {
            let lower = text::lowercase(last.name);
            let short = text::lowercase(shorter);
            let long = text::lowercase(longer);
            assert(long =~= lower.take(long.len() as int));
            assert(short =~= long.take(short.len() as int));
            assert(short =~= lower.take(short.len() as int));
            assert(text::starts_with_ignoring_case(last.name, shorter));
        }
        if text::starts_with_ignoring_case(last.name, shorter) {
            let kept = matching(playlists, shorter);
            assert(kept.drop_last() =~= matching(front, shorter));
            assert(kept.last() == last);
        }
    }
}

/// Making an ASCII prefix longer only drops playlists.
pub proof fn longer_ascii_prefix_only_drops(
    playlists: Seq<PlaylistView>,
    shorter: Seq<char>,
    longer: Seq<char>,
)
    requires
        vstd::utf8::is_ascii_chars(longer),
        shorter.is_prefix_of(longer),
    ensures
        matching(playlists, longer) == matching(matching(playlists, shorter), longer),
{
    text::lowercase_keeps_ascii_prefixes(shorter, longer);
    longer_prefix_only_drops(playlists, shorter, longer);
}

/// One more playlist matches last if its lower-case name is at least as long as the lower-case
/// prefix and agrees with it at every place of the prefix, and does not match otherwise.
pub proof fn matching_grows_by_matches(
    playlists: Seq<PlaylistView>,
    playlist: PlaylistView,
    prefix: Seq<char>,
)
    ensures
        matching(Seq::empty(), prefix).len() == 0,
        matching(playlists.push(playlist), prefix) == if text::lowercase(prefix).len()
            <= text::lowercase(playlist.name).len() && forall|i: int|
            0 <= i < text::lowercase(prefix).len() ==> #[trigger] text::lowercase(prefix)[i]
                == text::lowercase(playlist.name)[i] {
            matching(playlists, prefix).push(playlist)
        } else {
            matching(playlists, prefix)
        },
{
    reveal(Seq::filter);
    text::prefix_match_compares_every_character(playlist.name, prefix);
    assert(playlists.push(playlist).drop_last() =~= playlists);
}

} // verus!
