use vstd::prelude::*;

use crate::client::{Clerk, LoadedSnapshot};
use crate::error::Error;
use crate::models::{ClientRecord, EnvironmentRecord};
use crate::ClerkStoreInternal;

verus! {

/// What the initialize command returns to a surface once the client is
/// loaded: the environment, the client record and the configured publishable
/// key.
pub struct ClerkInitResponse {
    pub environment: EnvironmentRecord,
    pub client: ClientRecord,
    pub publishable_key: String,
}

/// The initialize command as a surface invokes it, given what the external
/// load reported when one was needed: one guarded initialization pass,
/// followed by the snapshot the surface renders from. Succeeds exactly when
/// the pass does; a failed load is surfaced to the caller, and the handle
/// stays retryable.
pub fn initialize(store: &mut ClerkStoreInternal, outcome: Result<LoadedSnapshot, String>) -> (r:
    Result<ClerkInitResponse, Error>)
    requires
        old(store).clerk.load_attempts < u64::MAX,
        old(store).clerk.listener_registrations < u64::MAX,
    ensures
        final(store).clerk == Clerk::ensure_next(old(store).clerk, outcome),
        final(store).publishable_key == old(store).publishable_key,
        r is Ok <==> Clerk::ensure_ok(old(store).clerk, outcome),
        r matches Ok(resp) ==> {
            &&& resp.client == final(store).clerk.state.client
            &&& resp.environment == final(store).clerk.environment
            &&& resp.publishable_key == old(store).publishable_key
        },
        r matches Err(e) ==> (outcome matches Err(m) && e == Error::Initialization(m)),
{
    match store.clerk.ensure_initialized_step(outcome) {
        Ok(_) => {
            let client = match store.clerk.client() {
                Ok(c) => c,
                Err(e) => {
                    return Err(e);
                },
            };
            let environment = match store.clerk.environment() {
                Ok(e) => e,
                Err(e) => {
                    return Err(e);
                },
            };
            Ok(ClerkInitResponse {
                environment,
                client,
                publishable_key: store.publishable_key.clone(),
            })
        },
        Err(e) => Err(e),
    }
}

} // verus!
