//! Deterministic state-transition core for a media-player client.
//!
//! The crate models the single entry point through which every user- or
//! network-driven intent flows: [`AppModel::update_state`] takes the current
//! [`AppState`] and an [`AppAction`], mutates the state in place, and returns
//! the ordered sequence of [`AppEvent`]s that downstream consumers react to.
//! The whole transition relation is captured by the specification function
//! [`player::reduce`], against which `update_state` is verified.

pub mod browser;
pub mod laws;
pub mod models;
pub mod navigation;
pub mod player;
pub mod services;
pub mod state;

pub use browser::BrowserAction;
pub use browser::BrowserEvent;
pub use browser::BrowserState;
pub use models::AppAction;
pub use models::AppEvent;
pub use models::Credentials;
pub use models::SongDescription;
pub use player::AppModel;
pub use player::AppServices;
pub use services::CredentialStore;
pub use services::MemoryCredentialStore;
pub use services::SaveError;
pub use services::SpotifyApiClient;
pub use state::AppState;
