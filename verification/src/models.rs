//! Value types exchanged with the reducer: track metadata, credentials,
//! inbound actions and outbound events.

use vstd::prelude::*;

use crate::browser::BrowserAction;
use crate::browser::BrowserEvent;

verus! {

/// An immutable description of a track. The `uri` field is the identifier
/// that playlist navigation resolves against; the remaining fields are
/// display metadata that the reducer never inspects.
#[derive(Clone, Debug, PartialEq)]
pub struct SongDescription {
    pub uri: String,
    pub title: String,
    pub artist: String,
    pub duration_ms: u32,
}

/// Credentials obtained from a completed login: an identity plus the bearer
/// token that the API client is to use from now on.
#[derive(Clone, Debug, PartialEq)]
pub struct Credentials {
    pub username: String,
    pub token: String,
}

/// The closed set of intents the reducer interprets. Every action is always
/// valid to submit; none of them can fail structurally.
#[derive(Clone, Debug, PartialEq)]
pub enum AppAction {
    Play,
    Pause,
    Next,
    Previous,
    Load(String),
    LoadPlaylist(Vec<SongDescription>),
    LoginSuccess(Credentials),
    Seek(u32),
    SyncSeek(u32),
    Start,
    TryLogin(String, String),
    BrowserAction(BrowserAction),
}

/// The closed set of outward notifications the reducer emits, in the order
/// the corresponding effects logically occur.
#[derive(Clone, Debug, PartialEq)]
pub enum AppEvent {
    TrackResumed,
    TrackPaused,
    TrackChanged(String),
    PlaylistChanged,
    LoginCompleted,
    TrackSeeked(u32),
    SeekSynced(u32),
    Started,
    LoginStarted(String, String),
    BrowserEvent(BrowserEvent),
}

} // verus!
