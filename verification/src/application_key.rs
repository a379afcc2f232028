//! The per-application key of the token and the secret record that the
//! key store keeps for it.
use crate::app_id::AppId;
use crate::key_handle::KeyHandle;
use crate::random_source::HandleDraw;
use vstd::prelude::*;

verus! {

/// The token's share of a two-party ECDSA key, as the signing server
/// handed it out: the key's id on the server and the JSON text of the
/// token's master key share.
pub struct PrivateShare {
    pub id: String,
    pub master_key: String,
}

impl PrivateShare {
    /// A copy of the share.
    pub fn duplicate(&self) -> (r: PrivateShare)
        ensures
            r == *self,
    {
        PrivateShare { id: self.id.clone(), master_key: self.master_key.clone() }
    }
}

/// A private key is generated per application. This stores the AppID for
/// indexing, the key handle given out for it, and the key share for signing.
pub struct ApplicationKey {
    pub application: AppId,
    pub handle: KeyHandle,
    pub key: PrivateShare,
    /// The draw of the random source the handle came from, where the handle
    /// was generated here.
    pub handle_draw: Option<HandleDraw>,
}

impl ApplicationKey {
    /// The application key made of its three parts.
    pub fn new(application: AppId, handle: KeyHandle, key: PrivateShare) -> (r: ApplicationKey)
        ensures
            r.application == application,
            r.handle == handle,
            r.key == key,
            r.handle_draw is None,
    {
        ApplicationKey { application, handle, key, handle_draw: None }
    }

    /// The key share of this application key.
    pub fn key(&self) -> (r: &PrivateShare)
        ensures
            *r == self.key,
    {
        &self.key
    }

    /// A copy of the application key.
    pub fn duplicate(&self) -> (r: ApplicationKey)
        ensures
            r.application == self.application,
            r.handle@ == self.handle@,
            r.key == self.key,
            r.handle_draw == self.handle_draw,
    {
        ApplicationKey {
            application: self.application,
            handle: KeyHandle(self.handle.0.clone()),
            key: self.key.duplicate(),
            handle_draw: self.handle_draw,
        }
    }
}

/// Use counter of a registration.
pub type Counter = u32;

/// What the key store keeps for a registration: the application key and
/// the number of signatures made with it so far.
pub struct Secret {
    pub application_key: ApplicationKey,
    pub counter: Counter,
}

impl Secret {
    /// The record of a new registration: the key, used zero times.
    pub fn new(application_key: ApplicationKey) -> (r: Secret)
        ensures
            r.counter == 0,
            r.application_key == application_key,
    {
        Secret { application_key, counter: 0 }
    }

    /// Counts one more use and returns the new count.
    pub fn increment(&mut self) -> (r: Counter)
        requires
            old(self).counter < u32::MAX,
        ensures
            final(self).counter == old(self).counter + 1,
            final(self).application_key == old(self).application_key,
            r == final(self).counter,
    {
        self.counter = self.counter + 1;
        self.counter
    }
}

} // verus!
