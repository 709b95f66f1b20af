//! The guarantees the reducer gives for whole classes of states, each
//! proved once and for all over the transition relation
//! [`crate::player::reduce`].

use vstd::prelude::*;

use crate::browser::browser_emitted;
use crate::browser::browser_next;
use crate::models::AppAction;
use crate::models::AppEvent;
use crate::models::Credentials;
use crate::models::SongDescription;
use crate::player::reduce;
use crate::player::stay;
use crate::state::AppState;

verus! {

/// `Play` always switches to playing and emits exactly `TrackResumed`,
/// whatever was playing before; track, playlist and browser stack are
/// untouched.
pub proof fn lemma_play_always_resumes(state: AppState)
    ensures
        reduce(state, AppAction::Play).is_playing,
        reduce(state, AppAction::Play).events =~= seq![AppEvent::TrackResumed],
        reduce(state, AppAction::Play).current_song_uri == state.current_song_uri,
        reduce(state, AppAction::Play).playlist == state.playlist@,
        reduce(state, AppAction::Play).browser == state.browser_state@,
{
}

/// `Pause` always switches to paused and emits exactly `TrackPaused`;
/// track, playlist and browser stack are untouched.
pub proof fn lemma_pause_always_pauses(state: AppState)
    ensures
        !reduce(state, AppAction::Pause).is_playing,
        reduce(state, AppAction::Pause).events =~= seq![AppEvent::TrackPaused],
        reduce(state, AppAction::Pause).current_song_uri == state.current_song_uri,
        reduce(state, AppAction::Pause).playlist == state.playlist@,
        reduce(state, AppAction::Pause).browser == state.browser_state@,
{
}

/// Without a current track there is nothing to navigate from: `Next` and
/// `Previous` change nothing and emit nothing.
pub proof fn lemma_navigation_needs_current(state: AppState)
    requires
        state.current_song_uri is None,
    ensures
        reduce(state, AppAction::Next) == stay(state),
        reduce(state, AppAction::Previous) == stay(state),
        reduce(state, AppAction::Next).events =~= Seq::<AppEvent>::empty(),
        reduce(state, AppAction::Previous).events =~= Seq::<AppEvent>::empty(),
{
}

/// A current track that matches nothing in the playlist gives navigation
/// nothing to resolve against: `Next` and `Previous` change nothing and
/// emit nothing, rather than failing.
pub proof fn lemma_navigation_needs_match(state: AppState)
    requires
        (match state.current_song_uri {
            Some(uri) => !crate::navigation::has_match(state.playlist@, uri@),
            None => true,
        }),
    ensures
        reduce(state, AppAction::Next) == stay(state),
        reduce(state, AppAction::Previous) == stay(state),
        reduce(state, AppAction::Next).events =~= Seq::<AppEvent>::empty(),
        reduce(state, AppAction::Previous).events =~= Seq::<AppEvent>::empty(),
{
}

/// `LoadPlaylist` replaces the playlist wholesale — nothing of the prior
/// one survives — and emits exactly `PlaylistChanged`; the playing flag,
/// the current track and the browser stack are untouched.
pub proof fn lemma_load_playlist_replaces(state: AppState, tracks: Vec<SongDescription>)
    ensures
        reduce(state, AppAction::LoadPlaylist(tracks)).playlist == tracks@,
        reduce(state, AppAction::LoadPlaylist(tracks)).events =~= seq![AppEvent::PlaylistChanged],
        reduce(state, AppAction::LoadPlaylist(tracks)).is_playing == state.is_playing,
        reduce(state, AppAction::LoadPlaylist(tracks)).current_song_uri
            == state.current_song_uri,
        reduce(state, AppAction::LoadPlaylist(tracks)).browser == state.browser_state@,
{
}

/// `Load` makes the given uri current and starts playing, whether or not
/// the uri occurs in the playlist, and emits exactly `TrackChanged` with
/// that uri.
pub proof fn lemma_load_sets_track(state: AppState, uri: String)
    ensures
        reduce(state, AppAction::Load(uri)).current_song_uri == Some(uri),
        reduce(state, AppAction::Load(uri)).is_playing,
        reduce(state, AppAction::Load(uri)).events =~= seq![AppEvent::TrackChanged(uri)],
        reduce(state, AppAction::Load(uri)).playlist == state.playlist@,
        reduce(state, AppAction::Load(uri)).browser == state.browser_state@,
{
}

/// `LoginSuccess` emits exactly `LoginCompleted` and leaves the whole
/// application state untouched. The transition does not depend on the
/// credential store at all, so a persistence failure cannot suppress the
/// event — which is the designed resilience of login.
pub proof fn lemma_login_always_completes(state: AppState, credentials: Credentials)
    ensures
        reduce(state, AppAction::LoginSuccess(credentials)).events =~= seq![
            AppEvent::LoginCompleted,
        ],
        reduce(state, AppAction::LoginSuccess(credentials)).is_playing == state.is_playing,
        reduce(state, AppAction::LoginSuccess(credentials)).current_song_uri
            == state.current_song_uri,
        reduce(state, AppAction::LoginSuccess(credentials)).playlist == state.playlist@,
        reduce(state, AppAction::LoginSuccess(credentials)).browser == state.browser_state@,
{
}

/// A delegated browser action yields one `BrowserEvent` per event of the
/// nested reducer, in the same order, and touches no state field besides
/// the browser stack.
pub proof fn lemma_browser_delegation(state: AppState, nested: crate::browser::BrowserAction)
    ensures
        reduce(state, AppAction::BrowserAction(nested)).events.len() == browser_emitted(
            state.browser_state@,
            nested,
        ).len(),
        forall|i: int|
            0 <= i < browser_emitted(state.browser_state@, nested).len()
                ==> reduce(state, AppAction::BrowserAction(nested)).events[i]
                == AppEvent::BrowserEvent(browser_emitted(state.browser_state@, nested)[i]),
        reduce(state, AppAction::BrowserAction(nested)).browser == browser_next(
            state.browser_state@,
            nested,
        ),
        reduce(state, AppAction::BrowserAction(nested)).is_playing == state.is_playing,
        reduce(state, AppAction::BrowserAction(nested)).current_song_uri
            == state.current_song_uri,
        reduce(state, AppAction::BrowserAction(nested)).playlist == state.playlist@,
{
}

} // verus!

