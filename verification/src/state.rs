//! The application state owned by the reducer.

use vstd::prelude::*;

use crate::browser::BrowserState;
use crate::models::SongDescription;

verus! {

/// The whole mutable application state. It is created once at session start
/// and mutated exclusively through `AppModel::update_state`.
#[derive(Clone, Debug, PartialEq)]
pub struct AppState {
    /// The two-position playing/paused flag.
    pub is_playing: bool,
    /// The identifier of the current track, when one is loaded. It points
    /// into `playlist` by uri, not by position, and nothing here enforces
    /// that the uri is actually present: navigation simply finds no match
    /// then.
    pub current_song_uri: Option<String>,
    /// The loaded tracks, in playback order.
    pub playlist: Vec<SongDescription>,
    /// The nested browsing sub-state, mutated only via its own reducer.
    pub browser_state: BrowserState,
}

impl AppState {
    /// The initial state: nothing playing, no track, empty playlist, empty
    /// navigation stack.
    pub fn new() -> (result: AppState)
        ensures
            !result.is_playing,
            result.current_song_uri is None,
            result.playlist@ =~= Seq::<SongDescription>::empty(),
            result.browser_state@ =~= Seq::<String>::empty(),
    {
        AppState {
            is_playing: false,
            current_song_uri: None,
            playlist: Vec::new(),
            browser_state: BrowserState::new(),
        }
    }
}

} // verus!
