//! Collaborator capabilities the reducer calls on login success.
//!
//! Both collaborators are best-effort from the reducer's point of view:
//! nothing the reducer guarantees depends on what an implementation does,
//! so the traits carry no contracts. A persistence failure in particular is
//! swallowed by design — the session proceeds with the in-memory token.

use vstd::prelude::*;

use crate::models::Credentials;

verus! {

/// The API client capability: receives the bearer token of a freshly
/// logged-in session. The reducer observes no return value and assumes the
/// call is infallible.
pub trait SpotifyApiClient {
    fn update_token(&self, token: &str);
}

/// The error a credential store may report. The reducer always discards it,
/// so it carries no detail.
#[derive(Clone, Copy, Debug, PartialEq, Eq, Structural)]
pub struct SaveError;

/// The credential-persistence capability. Failures are reported but never
/// surfaced as events by the reducer.
pub trait CredentialStore {
    fn save(&mut self, credentials: Credentials) -> Result<(), SaveError>;
}

/// An in-memory credential store: it keeps every set of credentials handed
/// to it, or refuses them all when `fail_saves` is set. The flag makes the
/// reducer's resilience to persistence failures observable.
#[derive(Clone, Debug, PartialEq)]
pub struct MemoryCredentialStore {
    pub saved: Vec<Credentials>,
    pub fail_saves: bool,
}

impl MemoryCredentialStore {
    /// An empty store that accepts every save.
    pub fn new() -> (result: MemoryCredentialStore)
        ensures
            result.saved@ =~= Seq::<Credentials>::empty(),
            !result.fail_saves,
    {
        MemoryCredentialStore { saved: Vec::new(), fail_saves: false }
    }

    /// An empty store that refuses every save.
    pub fn failing() -> (result: MemoryCredentialStore)
        ensures
            result.saved@ =~= Seq::<Credentials>::empty(),
            result.fail_saves,
    {
        MemoryCredentialStore { saved: Vec::new(), fail_saves: true }
    }
}

impl CredentialStore for MemoryCredentialStore {
    /// Keeps the credentials exactly when the store is not failing, and
    /// reports success accordingly.
    fn save(&mut self, credentials: Credentials) -> (result: Result<(), SaveError>)
        ensures
            final(self).fail_saves == old(self).fail_saves,
            old(self).fail_saves ==> result is Err && final(self).saved@ == old(self).saved@,
            !old(self).fail_saves ==> result is Ok && final(self).saved@ == old(
                self,
            ).saved@.push(credentials),
    {
        if self.fail_saves {
            Err(SaveError)
        } else {
            self.saved.push(credentials);
            Ok(())
        }
    }
}

} // verus!
