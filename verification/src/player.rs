//! The reducer: the single entry point through which the application state
//! is mutated.
//!
//! [`AppModel::update_state`] dispatches each action to exactly one branch,
//! mutates the state, invokes the collaborators where the action asks for
//! it, and returns the produced events in order. The whole transition
//! relation is the specification function [`reduce`]: what it says about
//! the state after and the events emitted is exactly what `update_state`
//! guarantees, for every action and every prior state.

use std::rc::Rc;

use vstd::prelude::*;

use crate::browser::browser_emitted;
use crate::browser::browser_next;
use crate::models::AppAction;
use crate::models::AppEvent;
use crate::models::SongDescription;
use crate::navigation::index_of_first;
use crate::navigation::lemma_first_match;
use crate::navigation::predecessor_of;
use crate::navigation::successor_of;
use crate::services::CredentialStore;
use crate::services::SpotifyApiClient;
use crate::state::AppState;

verus! {

/// The collaborators the reducer calls on login success: the shared API
/// client whose bearer token it refreshes, and the store that persists
/// credentials best-effort.
pub struct AppServices<A: SpotifyApiClient, C: CredentialStore> {
    pub spotify_api: Rc<A>,
    pub credential_store: C,
}

/// The application state together with its collaborators. All mutation
/// goes through [`AppModel::update_state`].
pub struct AppModel<A: SpotifyApiClient, C: CredentialStore> {
    pub state: AppState,
    pub services: AppServices<A, C>,
}

/// One transition of the reducer, fully determined by the prior state and
/// the action: the state fields after the call and the events emitted.
#[verifier::ext_equal]
pub ghost struct Step {
    pub is_playing: bool,
    pub current_song_uri: Option<String>,
    pub playlist: Seq<SongDescription>,
    pub browser: Seq<String>,
    pub events: Seq<AppEvent>,
}

/// The transition that changes nothing and emits nothing.
pub open spec fn stay(state: AppState) -> Step {
    Step {
        is_playing: state.is_playing,
        current_song_uri: state.current_song_uri,
        playlist: state.playlist@,
        browser: state.browser_state@,
        events: Seq::empty(),
    }
}

/// The complete transition relation of the reducer: for every prior state
/// and action, the state after and the events emitted, in order. `Next`
/// and `Previous` deliberately change nothing and emit nothing when no
/// navigation target exists, so callers can dispatch freely at playlist
/// boundaries.
pub open spec fn reduce(state: AppState, action: AppAction) -> Step {
    match action {
        AppAction::Play => Step {
            is_playing: true,
            events: seq![AppEvent::TrackResumed],
            ..stay(state)
        },
        AppAction::Pause => Step {
            is_playing: false,
            events: seq![AppEvent::TrackPaused],
            ..stay(state)
        },
        AppAction::Next => match successor_of(state) {
            Some(song) => Step {
                is_playing: true,
                current_song_uri: Some(song.uri),
                events: seq![AppEvent::TrackChanged(song.uri)],
                ..stay(state)
            },
            None => stay(state),
        },
        AppAction::Previous => match predecessor_of(state) {
            Some(song) => Step {
                is_playing: true,
                current_song_uri: Some(song.uri),
                events: seq![AppEvent::TrackChanged(song.uri)],
                ..stay(state)
            },
            None => stay(state),
        },
        AppAction::Load(uri) => Step {
            is_playing: true,
            current_song_uri: Some(uri),
            events: seq![AppEvent::TrackChanged(uri)],
            ..stay(state)
        },
        AppAction::LoadPlaylist(tracks) => Step {
            playlist: tracks@,
            events: seq![AppEvent::PlaylistChanged],
            ..stay(state)
        },
        AppAction::LoginSuccess(credentials) => Step {
            events: seq![AppEvent::LoginCompleted],
            ..stay(state)
        },
        AppAction::Seek(position) => Step {
            events: seq![AppEvent::TrackSeeked(position)],
            ..stay(state)
        },
        AppAction::SyncSeek(position) => Step {
            events: seq![AppEvent::SeekSynced(position)],
            ..stay(state)
        },
        AppAction::Start => Step { events: seq![AppEvent::Started], ..stay(state) },
        AppAction::TryLogin(username, password) => Step {
            events: seq![AppEvent::LoginStarted(username, password)],
            ..stay(state)
        },
        AppAction::BrowserAction(nested) => Step {
            browser: browser_next(state.browser_state@, nested),
            events: browser_emitted(state.browser_state@, nested).map(
                |i: int, e| AppEvent::BrowserEvent(e),
            ),
            ..stay(state)
        },
    }
}

/// Builds the one-element event sequence most branches return.
fn single_event(event: AppEvent) -> (events: Vec<AppEvent>)
    ensures
        events@ == seq![event],
{
    let mut events: Vec<AppEvent> = Vec::new();
    events.push(event);
    proof {
        assert(events@ =~= seq![event]);
    }
    events
}

impl<A: SpotifyApiClient, C: CredentialStore> AppModel<A, C> {
    /// Bundles an initial state with the collaborators.
    pub fn new(state: AppState, spotify_api: Rc<A>, credential_store: C) -> (result: AppModel<
        A,
        C,
    >)
        ensures
            result.state == state,
            result.services.spotify_api == spotify_api,
            result.services.credential_store == credential_store,
    {
        let services = AppServices { spotify_api, credential_store };
        AppModel { state, services }
    }

    /// The track that `Next` would move to: the one right after the first
    /// occurrence of the current track in the playlist, if both exist.
    pub fn next_song(&self) -> (result: Option<&SongDescription>)
        ensures
            (match result {
                Some(song) => successor_of(self.state) == Some(*song),
                None => successor_of(self.state) is None,
            }),
    {
        match &self.state.current_song_uri {
            None => None,
            Some(uri) => {
                let index = index_of_first(&self.state.playlist, uri);
                proof {
                    lemma_first_match(self.state.playlist@, uri@);
                }
                if index < self.state.playlist.len() && index + 1 < self.state.playlist.len() {
                    Some(&self.state.playlist[index + 1])
                } else {
                    None
                }
            },
        }
    }

    /// The track that `Previous` would move to: the one right before the
    /// first occurrence of the current track in the playlist, if both
    /// exist.
    pub fn prev_song(&self) -> (result: Option<&SongDescription>)
        ensures
            (match result {
                Some(song) => predecessor_of(self.state) == Some(*song),
                None => predecessor_of(self.state) is None,
            }),
    {
        match &self.state.current_song_uri {
            None => None,
            Some(uri) => {
                let index = index_of_first(&self.state.playlist, uri);
                proof {
                    lemma_first_match(self.state.playlist@, uri@);
                }
                if index < self.state.playlist.len() && index > 0 {
                    Some(&self.state.playlist[index - 1])
                } else {
                    None
                }
            },
        }
    }

    /// Applies one action: mutates the state as [`reduce`] prescribes and
    /// returns exactly the events [`reduce`] prescribes, in order. The API
    /// client and the credential store are only ever touched by
    /// `LoginSuccess`, and whatever they do — the credential store may
    /// refuse to persist — neither the state after nor the events change.
    pub fn update_state(&mut self, message: AppAction) -> (events: Vec<AppEvent>)
        ensures
            ({
                let step = reduce(old(self).state, message);
                &&& final(self).state.is_playing == step.is_playing
                &&& final(self).state.current_song_uri == step.current_song_uri
                &&& final(self).state.playlist@ == step.playlist
                &&& final(self).state.browser_state@ == step.browser
                &&& events@ == step.events
            }),
            final(self).services.spotify_api == old(self).services.spotify_api,
            !(message matches AppAction::LoginSuccess(_)) ==> final(self).services
                == old(self).services,
    {
        match message {
            AppAction::Play => {
                self.state.is_playing = true;
                single_event(AppEvent::TrackResumed)
            },
            AppAction::Pause => {
                self.state.is_playing = false;
                single_event(AppEvent::TrackPaused)
            },
            AppAction::Next => {
                let next_uri: Option<String> = match self.next_song() {
                    Some(song) => Some(song.uri.clone()),
                    None => None,
                };
                match next_uri {
                    Some(uri) => {
                        self.state.is_playing = true;
                        self.state.current_song_uri = Some(uri.clone());
                        single_event(AppEvent::TrackChanged(uri))
                    },
                    None => Vec::new(),
                }
            },
            AppAction::Previous => {
                let prev_uri: Option<String> = match self.prev_song() {
                    Some(song) => Some(song.uri.clone()),
                    None => None,
                };
                match prev_uri {
                    Some(uri) => {
                        self.state.is_playing = true;
                        self.state.current_song_uri = Some(uri.clone());
                        single_event(AppEvent::TrackChanged(uri))
                    },
                    None => Vec::new(),
                }
            },
            AppAction::Load(uri) => {
                self.state.is_playing = true;
                self.state.current_song_uri = Some(uri.clone());
                single_event(AppEvent::TrackChanged(uri))
            },
            AppAction::LoadPlaylist(tracks) => {
                self.state.playlist = tracks;
                single_event(AppEvent::PlaylistChanged)
            },
            AppAction::LoginSuccess(credentials) => {
                let _ = self.services.credential_store.save(credentials.clone());
                self.services.spotify_api.update_token(credentials.token.as_str());
                single_event(AppEvent::LoginCompleted)
            },
            AppAction::Seek(position) => single_event(AppEvent::TrackSeeked(position)),
            AppAction::SyncSeek(position) => single_event(AppEvent::SeekSynced(position)),
            AppAction::Start => single_event(AppEvent::Started),
            AppAction::TryLogin(username, password) => single_event(
                AppEvent::LoginStarted(username, password),
            ),
            AppAction::BrowserAction(nested) => {
                let ghost stack0 = self.state.browser_state@;
                let ghost emitted = browser_emitted(stack0, nested);
                let mut nested_events = self.state.browser_state.update_with(nested);
                let mut events: Vec<AppEvent> = Vec::new();
                proof {
                    assert(nested_events@ =~= emitted.skip(0));
                }
                while nested_events.len() > 0
                    invariant
                        nested_events@ == emitted.skip(events@.len() as int),
                        events@.len() <= emitted.len(),
                        events@ =~= emitted.take(events@.len() as int).map(
                            |i: int, e| AppEvent::BrowserEvent(e),
                        ),
                        self.state.browser_state@ == browser_next(stack0, nested),
                        self.state.is_playing == old(self).state.is_playing,
                        self.state.current_song_uri == old(self).state.current_song_uri,
                        self.state.playlist == old(self).state.playlist,
                        self.services == old(self).services,
                    decreases nested_events@.len(),
                {
                    let ghost k = events@.len() as int;
                    let next_event = nested_events.remove(0);
                    events.push(AppEvent::BrowserEvent(next_event));
                    proof {
                        assert(next_event == emitted[k]);
                        assert(nested_events@ =~= emitted.skip(k + 1));
                        assert(events@ =~= emitted.take(k + 1).map(
                            |i: int, e| AppEvent::BrowserEvent(e),
                        ));
                    }
                }
                proof {
                    assert(emitted.take(emitted.len() as int) =~= emitted);
                    assert(events@ =~= reduce(old(self).state, message).events);
                }
                events
            },
        }
    }
}

} // verus!
