//! End-to-end tests of the reducer: one scenario per dispatchable action,
//! plus the playlist-boundary and duplicate-uri edge cases.

use std::cell::RefCell;
use std::rc::Rc;

use player_core::AppAction;
use player_core::AppEvent;
use player_core::AppModel;
use player_core::AppState;
use player_core::BrowserAction;
use player_core::BrowserEvent;
use player_core::Credentials;
use player_core::MemoryCredentialStore;
use player_core::SongDescription;
use player_core::SpotifyApiClient;

/// A test double for the API client that records the last token it saw.
struct RecordingClient {
    token: RefCell<Option<String>>,
}

impl RecordingClient {
    fn new() -> RecordingClient {
        RecordingClient { token: RefCell::new(None) }
    }
}

impl SpotifyApiClient for RecordingClient {
    fn update_token(&self, token: &str) {
        *self.token.borrow_mut() = Some(token.to_string());
    }
}

fn song(uri: &str, title: &str) -> SongDescription {
    SongDescription {
        uri: uri.to_string(),
        title: title.to_string(),
        artist: "artist".to_string(),
        duration_ms: 180_000,
    }
}

fn three_track_state(current: Option<&str>) -> AppState {
    AppState {
        is_playing: false,
        current_song_uri: current.map(|uri| uri.to_string()),
        playlist: vec![song("uri:a", "A"), song("uri:b", "B"), song("uri:c", "C")],
        browser_state: player_core::BrowserState { navigation: Vec::new() },
    }
}

fn model_of(state: AppState) -> AppModel<RecordingClient, MemoryCredentialStore> {
    AppModel::new(state, Rc::new(RecordingClient::new()), MemoryCredentialStore::new())
}

#[test]
fn play_resumes_from_paused() {
    let mut model = model_of(three_track_state(Some("uri:b")));
    let events = model.update_state(AppAction::Play);
    assert!(model.state.is_playing);
    assert_eq!(events, vec![AppEvent::TrackResumed]);
    assert_eq!(model.state.current_song_uri, Some("uri:b".to_string()));
}

#[test]
fn play_keeps_playing_when_already_playing() {
    let mut state = three_track_state(None);
    state.is_playing = true;
    let mut model = model_of(state);
    let events = model.update_state(AppAction::Play);
    assert!(model.state.is_playing);
    assert_eq!(events, vec![AppEvent::TrackResumed]);
}

#[test]
fn pause_always_pauses() {
    let mut state = three_track_state(Some("uri:a"));
    state.is_playing = true;
    let mut model = model_of(state);
    let events = model.update_state(AppAction::Pause);
    assert!(!model.state.is_playing);
    assert_eq!(events, vec![AppEvent::TrackPaused]);
}

#[test]
fn next_moves_to_the_following_track() {
    let mut model = model_of(three_track_state(Some("uri:b")));
    let events = model.update_state(AppAction::Next);
    assert_eq!(model.state.current_song_uri, Some("uri:c".to_string()));
    assert!(model.state.is_playing);
    assert_eq!(events, vec![AppEvent::TrackChanged("uri:c".to_string())]);
}

#[test]
fn previous_moves_to_the_preceding_track() {
    let mut model = model_of(three_track_state(Some("uri:b")));
    let events = model.update_state(AppAction::Previous);
    assert_eq!(model.state.current_song_uri, Some("uri:a".to_string()));
    assert!(model.state.is_playing);
    assert_eq!(events, vec![AppEvent::TrackChanged("uri:a".to_string())]);
}

#[test]
fn next_on_the_last_track_is_a_noop() {
    let mut model = model_of(three_track_state(Some("uri:c")));
    let before = model.state.clone();
    let events = model.update_state(AppAction::Next);
    assert_eq!(events, Vec::new());
    assert_eq!(model.state, before);
}

#[test]
fn previous_on_the_first_track_is_a_noop() {
    let mut model = model_of(three_track_state(Some("uri:a")));
    let before = model.state.clone();
    let events = model.update_state(AppAction::Previous);
    assert_eq!(events, Vec::new());
    assert_eq!(model.state, before);
}

#[test]
fn navigation_without_a_current_track_is_a_noop() {
    let mut model = model_of(three_track_state(None));
    let before = model.state.clone();
    assert_eq!(model.update_state(AppAction::Next), Vec::new());
    assert_eq!(model.state, before);
    assert_eq!(model.update_state(AppAction::Previous), Vec::new());
    assert_eq!(model.state, before);
}

#[test]
fn navigation_with_an_unmatched_current_track_is_a_noop() {
    let mut model = model_of(three_track_state(Some("uri:elsewhere")));
    let before = model.state.clone();
    assert_eq!(model.update_state(AppAction::Next), Vec::new());
    assert_eq!(model.update_state(AppAction::Previous), Vec::new());
    assert_eq!(model.state, before);
}

#[test]
fn navigation_resolves_against_the_first_duplicate() {
    let mut state = three_track_state(Some("uri:a"));
    state.playlist.push(song("uri:a", "A again"));
    let mut model = model_of(state);
    let events = model.update_state(AppAction::Next);
    assert_eq!(model.state.current_song_uri, Some("uri:b".to_string()));
    assert_eq!(events, vec![AppEvent::TrackChanged("uri:b".to_string())]);
    // The first occurrence is also the first track, so Previous finds nothing.
    let mut model = model_of({
        let mut state = three_track_state(Some("uri:a"));
        state.playlist.push(song("uri:a", "A again"));
        state
    });
    assert_eq!(model.update_state(AppAction::Previous), Vec::new());
}

#[test]
fn next_and_prev_song_on_a_single_track_playlist() {
    let state = AppState {
        is_playing: false,
        current_song_uri: Some("uri:solo".to_string()),
        playlist: vec![song("uri:solo", "Solo")],
        browser_state: player_core::BrowserState { navigation: Vec::new() },
    };
    let model = model_of(state);
    assert!(model.next_song().is_none());
    assert!(model.prev_song().is_none());
}

#[test]
fn next_song_and_prev_song_return_the_neighbours() {
    let model = model_of(three_track_state(Some("uri:b")));
    assert_eq!(model.next_song().map(|s| s.uri.clone()), Some("uri:c".to_string()));
    assert_eq!(model.prev_song().map(|s| s.uri.clone()), Some("uri:a".to_string()));
}

#[test]
fn load_sets_the_track_even_when_absent_from_the_playlist() {
    let mut model = model_of(three_track_state(None));
    let events = model.update_state(AppAction::Load("uri:new".to_string()));
    assert_eq!(model.state.current_song_uri, Some("uri:new".to_string()));
    assert!(model.state.is_playing);
    assert_eq!(events, vec![AppEvent::TrackChanged("uri:new".to_string())]);
}

#[test]
fn load_playlist_replaces_the_whole_playlist() {
    let mut model = model_of(three_track_state(Some("uri:b")));
    let replacement = vec![song("uri:x", "X"), song("uri:y", "Y")];
    let events = model.update_state(AppAction::LoadPlaylist(replacement.clone()));
    assert_eq!(model.state.playlist, replacement);
    assert_eq!(events, vec![AppEvent::PlaylistChanged]);
    // Everything else stays.
    assert_eq!(model.state.current_song_uri, Some("uri:b".to_string()));
    assert!(!model.state.is_playing);
}

#[test]
fn login_success_persists_and_propagates_the_token() {
    let client = Rc::new(RecordingClient::new());
    let mut model = AppModel::new(
        three_track_state(None),
        Rc::clone(&client),
        MemoryCredentialStore::new(),
    );
    let credentials = Credentials {
        username: "alice".to_string(),
        token: "tok-1".to_string(),
    };
    let events = model.update_state(AppAction::LoginSuccess(credentials.clone()));
    assert_eq!(events, vec![AppEvent::LoginCompleted]);
    assert_eq!(*client.token.borrow(), Some("tok-1".to_string()));
    assert_eq!(model.services.credential_store.saved, vec![credentials]);
}

#[test]
fn login_success_survives_a_persistence_failure() {
    let client = Rc::new(RecordingClient::new());
    let mut model = AppModel::new(
        three_track_state(Some("uri:a")),
        Rc::clone(&client),
        MemoryCredentialStore::failing(),
    );
    let before = model.state.clone();
    let credentials = Credentials {
        username: "bob".to_string(),
        token: "tok-2".to_string(),
    };
    let events = model.update_state(AppAction::LoginSuccess(credentials));
    // The event fires and the token still propagates; only persistence failed.
    assert_eq!(events, vec![AppEvent::LoginCompleted]);
    assert_eq!(*client.token.borrow(), Some("tok-2".to_string()));
    assert_eq!(model.services.credential_store.saved, Vec::new());
    assert_eq!(model.state, before);
}

#[test]
fn seek_emits_the_position() {
    let mut model = model_of(three_track_state(Some("uri:a")));
    let before = model.state.clone();
    assert_eq!(model.update_state(AppAction::Seek(42_000)), vec![AppEvent::TrackSeeked(42_000)]);
    assert_eq!(
        model.update_state(AppAction::SyncSeek(43_500)),
        vec![AppEvent::SeekSynced(43_500)]
    );
    assert_eq!(model.state, before);
}

#[test]
fn start_emits_started() {
    let mut model = model_of(three_track_state(None));
    assert_eq!(model.update_state(AppAction::Start), vec![AppEvent::Started]);
}

#[test]
fn try_login_emits_the_submitted_pair() {
    let mut model = model_of(three_track_state(None));
    let events = model.update_state(
        AppAction::TryLogin("carol".to_string(), "SECRET-REDACTED".to_string()),
    );
    assert_eq!(
        events,
        vec![AppEvent::LoginStarted("carol".to_string(), "SECRET-REDACTED".to_string())]
    );
}

#[test]
fn browser_actions_are_delegated_and_wrapped_in_order() {
    let mut model = model_of(three_track_state(Some("uri:b")));
    let before = model.state.clone();

    let events = model.update_state(
        AppAction::BrowserAction(BrowserAction::NavigationPush("home".to_string())),
    );
    assert_eq!(
        events,
        vec![AppEvent::BrowserEvent(BrowserEvent::NavigationPushed("home".to_string()))]
    );
    assert_eq!(model.state.browser_state.navigation, vec!["home".to_string()]);

    // No other state field moved.
    assert_eq!(model.state.is_playing, before.is_playing);
    assert_eq!(model.state.current_song_uri, before.current_song_uri);
    assert_eq!(model.state.playlist, before.playlist);

    for page in ["artists", "albums", "tracks"] {
        model.update_state(
            AppAction::BrowserAction(BrowserAction::NavigationPush(page.to_string())),
        );
    }
    let events = model.update_state(
        AppAction::BrowserAction(BrowserAction::NavigationPopTo("artists".to_string())),
    );
    assert_eq!(
        events,
        vec![
            AppEvent::BrowserEvent(BrowserEvent::NavigationPopped),
            AppEvent::BrowserEvent(BrowserEvent::NavigationPopped),
            AppEvent::BrowserEvent(BrowserEvent::NavigationPoppedTo("artists".to_string())),
        ]
    );
    assert_eq!(
        model.state.browser_state.navigation,
        vec!["home".to_string(), "artists".to_string()]
    );
}

#[test]
fn initial_state_is_empty_and_paused() {
    let state = AppState::new();
    assert!(!state.is_playing);
    assert_eq!(state.current_song_uri, None);
    assert_eq!(state.playlist, Vec::new());
    assert_eq!(state.browser_state.navigation, Vec::<String>::new());
}
