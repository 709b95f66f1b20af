//! Pure playlist navigation: finding the predecessor or successor of the
//! current track in playback order.
//!
//! Both lookups resolve against the *first* occurrence of the current
//! track's uri, which is also what a forward scan of the playlist finds;
//! with duplicate uris in a playlist this first-occurrence resolution is
//! deliberate.

use vstd::prelude::*;

use crate::models::SongDescription;
use crate::state::AppState;

verus! {

/// True when some track of `playlist` carries the uri `uri`.
pub open spec fn has_match(playlist: Seq<SongDescription>, uri: Seq<char>) -> bool {
    exists|i: int| 0 <= i < playlist.len() && playlist[i].uri@ == uri
}

/// The position of the first track of `playlist` whose uri is `uri`, or
/// `playlist.len()` when no track matches.
pub open spec fn first_match(playlist: Seq<SongDescription>, uri: Seq<char>) -> int
    decreases playlist.len(),
{
    if playlist.len() == 0 {
        0
    } else if playlist[0].uri@ == uri {
        0
    } else {
        1 + first_match(playlist.drop_first(), uri)
    }
}

/// `first_match` is the first matching position: it stays within bounds,
/// lands on a match exactly when one exists, and everything before it
/// differs from the uri sought.
pub proof fn lemma_first_match(playlist: Seq<SongDescription>, uri: Seq<char>)
    ensures
        0 <= first_match(playlist, uri) <= playlist.len(),
        has_match(playlist, uri) <==> first_match(playlist, uri) < playlist.len(),
        first_match(playlist, uri) < playlist.len() ==> playlist[first_match(playlist, uri)].uri@
            == uri,
        forall|j: int| 0 <= j < first_match(playlist, uri) ==> playlist[j].uri@ != uri,
    decreases playlist.len(),
{
    if playlist.len() == 0 {
    } else if playlist[0].uri@ == uri {
        assert(has_match(playlist, uri));
    } else {
        let rest = playlist.drop_first();
        lemma_first_match(rest, uri);
        assert forall|j: int| 0 <= j < first_match(playlist, uri) implies playlist[j].uri@
            != uri by {
            if j > 0 {
                assert(rest[j - 1] == playlist[j]);
            }
        }
        if has_match(rest, uri) {
            let i: int = choose|i: int| 0 <= i < rest.len() && rest[i].uri@ == uri;
            assert(playlist[i + 1] == rest[i]);
            assert(has_match(playlist, uri));
        }
        if has_match(playlist, uri) {
            let i: int = choose|i: int| 0 <= i < playlist.len() && playlist[i].uri@ == uri;
            assert(i != 0);
            assert(rest[i - 1] == playlist[i]);
            assert(has_match(rest, uri));
        }
    }
}

/// The track immediately after the first occurrence of `uri`, when that
/// occurrence exists and is not the last track.
pub open spec fn successor_in(playlist: Seq<SongDescription>, uri: Seq<char>) -> Option<
    SongDescription,
> {
    if has_match(playlist, uri) && first_match(playlist, uri) + 1 < playlist.len() {
        Some(playlist[first_match(playlist, uri) + 1])
    } else {
        None
    }
}

/// The track immediately before the first occurrence of `uri`, when that
/// occurrence exists and is not the first track.
pub open spec fn predecessor_in(playlist: Seq<SongDescription>, uri: Seq<char>) -> Option<
    SongDescription,
> {
    if has_match(playlist, uri) && 0 < first_match(playlist, uri) {
        Some(playlist[first_match(playlist, uri) - 1])
    } else {
        None
    }
}

/// The navigation target of `Next` in a given state: the successor of the
/// current track, if any.
pub open spec fn successor_of(state: AppState) -> Option<SongDescription> {
    match state.current_song_uri {
        None => None,
        Some(uri) => successor_in(state.playlist@, uri@),
    }
}

/// The navigation target of `Previous` in a given state: the predecessor
/// of the current track, if any.
pub open spec fn predecessor_of(state: AppState) -> Option<SongDescription> {
    match state.current_song_uri {
        None => None,
        Some(uri) => predecessor_in(state.playlist@, uri@),
    }
}

/// Scans `playlist` forward for the first track whose uri is `uri`,
/// returning its position, or the playlist length when no track matches.
pub fn index_of_first(playlist: &Vec<SongDescription>, uri: &String) -> (index: usize)
    ensures
        index as int == first_match(playlist@, uri@),
{
    let n: usize = playlist.len();
    let mut i: usize = 0;
    while i < n && !(playlist[i].uri.eq(uri))
        invariant
            n == playlist@.len(),
            i <= n,
            forall|j: int| 0 <= j < i ==> playlist@[j].uri@ != uri@,
        decreases n - i,
    {
        i += 1;
    }
    proof {
        lemma_first_match(playlist@, uri@);
        if i < n {
            assert(has_match(playlist@, uri@));
            if first_match(playlist@, uri@) < i {
                assert(playlist@[first_match(playlist@, uri@)].uri@ != uri@);
            }
            if first_match(playlist@, uri@) > i {
                assert(playlist@[i as int].uri@ != uri@);
            }
            assert(first_match(playlist@, uri@) == i);
        } else {
            if has_match(playlist@, uri@) {
                let k: int = choose|k: int| 0 <= k < playlist@.len() && playlist@[k].uri@ == uri@;
                assert(playlist@[k].uri@ != uri@);
            }
            assert(first_match(playlist@, uri@) == n);
        }
    }
    i
}

} // verus!
