//! Session-state synchronization core for a Clerk-backed host application.
//!
//! The crate keeps one native authentication client consistent across any
//! number of presentation surfaces. It verifies the decision logic of the
//! core: a single-flight initialization guard, a bidirectional state-change
//! bridge with loop prevention by provenance tagging, a persistence adapter
//! interface with an in-process reference store, and the thin command facade
//! a surface invokes. Network calls, window events and locks live at the
//! host boundary, which drives these functions and owes them their
//! preconditions.

pub mod client;
pub mod commands;
pub mod error;
pub mod events;
pub mod models;
pub mod store;

use vstd::prelude::*;

use crate::client::Clerk;
use crate::error::Error;
use crate::models::InitializeRequest;

verus! {

/// The payload-free single-flight lock: its sole job is to serialize callers
/// of the guarded initialization section. The lock itself is supplied by the
/// host runtime; this is the (empty) value it protects.
pub struct ClerkInitLockInner {}

impl Default for ClerkInitLockInner {
    fn default() -> (r: Self)
        ensures
            r == (ClerkInitLockInner {}),
    {
        ClerkInitLockInner {}
    }
}

/// The process-wide session store: the one authentication client handle plus
/// the validated publishable key it was configured with. One per process,
/// created at plugin setup; the host keeps it under a concurrency-safe guard
/// and hands each command handler access to it.
pub struct ClerkStoreInternal {
    pub clerk: Clerk,
    pub publishable_key: String,
}

impl Clone for ClerkStoreInternal {
    fn clone(&self) -> (r: Self)
        ensures
            r == *self,
    {
        ClerkStoreInternal {
            clerk: self.clerk.clone(),
            publishable_key: self.publishable_key.clone(),
        }
    }
}

impl ClerkStoreInternal {
    /// The shared client handle, owed exactly when initialization has
    /// succeeded; before that, the caller is told to initialize first.
    pub fn get_client(&self) -> (r: Result<Clerk, Error>)
        ensures
            self.clerk.loaded ==> (r matches Ok(c) && c == self.clerk),
            !self.clerk.loaded ==> (r matches Err(e) && e is Uninitialized),
    {
        if self.clerk.is_initialized() {
            Ok(self.clerk.clone())
        } else {
            Err(Error::Uninitialized)
        }
    }

    /// Swap the whole record atomically; used only during reconfiguration
    /// flows, never during normal operation.
    pub fn replace(&mut self, new_state: ClerkStoreInternal)
        ensures
            *final(self) == new_state,
    {
        *self = new_state;
    }
}

/// Builder for the plugin's configuration: the publishable key is required,
/// proxy and domain are optional, and the host may ask for the bundled
/// durable store. The concrete storage backend and the host's event plumbing
/// are supplied at the boundary.
pub struct ClerkPluginBuilder {
    /// Clerk publishable key
    pub publishable_key: Option<String>,
    /// Proxy URL
    pub proxy: Option<String>,
    /// Domain
    pub domain: Option<String>,
    /// Whether the host-supplied durable store should back persistence.
    pub with_tauri_store: bool,
}

impl Default for ClerkPluginBuilder {
    fn default() -> (r: Self)
        ensures
            r.publishable_key is None,
            r.proxy is None,
            r.domain is None,
            !r.with_tauri_store,
    {
        ClerkPluginBuilder { publishable_key: None, proxy: None, domain: None, with_tauri_store: false }
    }
}

impl ClerkPluginBuilder {
    /// Create a new builder instance
    pub fn new() -> (r: Self)
        ensures
            r.publishable_key is None,
            r.proxy is None,
            r.domain is None,
            !r.with_tauri_store,
    {
        ClerkPluginBuilder { publishable_key: None, proxy: None, domain: None, with_tauri_store: false }
    }

    /// Set the Clerk publishable key
    pub fn publishable_key(self, key: String) -> (r: Self)
        ensures
            r == (ClerkPluginBuilder { publishable_key: Some(key), ..self }),
    {
        ClerkPluginBuilder { publishable_key: Some(key), ..self }
    }

    /// Set the proxy URL
    pub fn proxy(self, proxy: String) -> (r: Self)
        ensures
            r == (ClerkPluginBuilder { proxy: Some(proxy), ..self }),
    {
        ClerkPluginBuilder { proxy: Some(proxy), ..self }
    }

    /// Set the domain
    pub fn domain(self, domain: String) -> (r: Self)
        ensures
            r == (ClerkPluginBuilder { domain: Some(domain), ..self }),
    {
        ClerkPluginBuilder { domain: Some(domain), ..self }
    }

    /// Ask for the host-supplied durable store
    pub fn with_tauri_store(self) -> (r: Self)
        ensures
            r == (ClerkPluginBuilder { with_tauri_store: true, ..self }),
    {
        ClerkPluginBuilder { with_tauri_store: true, ..self }
    }

    /// Fold a surface's initialize request into the configuration: a value
    /// carried by the request overrides the configured one and is kept from
    /// then on; an absent value leaves the configuration as it is.
    pub fn apply_request(self, request: InitializeRequest) -> (r: Self)
        ensures
            r.publishable_key == if request.publishable_key is Some {
                request.publishable_key
            } else {
                self.publishable_key
            },
            r.proxy == if request.proxy is Some {
                request.proxy
            } else {
                self.proxy
            },
            r.domain == if request.domain is Some {
                request.domain
            } else {
                self.domain
            },
            r.with_tauri_store == self.with_tauri_store,
    {
        ClerkPluginBuilder {
            publishable_key: match request.publishable_key {
                Some(key) => Some(key),
                None => self.publishable_key,
            },
            proxy: match request.proxy {
                Some(proxy) => Some(proxy),
                None => self.proxy,
            },
            domain: match request.domain {
                Some(domain) => Some(domain),
                None => self.domain,
            },
            with_tauri_store: self.with_tauri_store,
        }
    }

    /// Validate the configuration and create the process-wide session store.
    /// A missing or empty publishable key is a configuration error, fatal at
    /// setup time and never deferred to first use.
    pub fn setup(self) -> (r: Result<ClerkStoreInternal, Error>)
        ensures
            r is Ok <==> (self.publishable_key matches Some(k) && k@.len() > 0),
            r matches Ok(s) ==> {
                &&& self.publishable_key matches Some(k) && s.publishable_key == k
                &&& !s.clerk.loaded
                &&& s.clerk.load_attempts == 0
                &&& s.clerk.listener_registrations == 0
                &&& s.clerk.wf()
                &&& s.clerk.authorization_header is None
            },
            r matches Err(e) ==> e is Configuration,
    {
        match self.publishable_key {
            Some(key) => {
                if key.as_str().is_empty() {
                    Err(Error::Configuration("Clerk: Missing publishable_key".to_owned()))
                } else {
                    Ok(ClerkStoreInternal { clerk: Clerk::new(), publishable_key: key })
                }
            },
            None => Err(Error::Configuration("Clerk: Missing publishable_key".to_owned())),
        }
    }
}

} // verus!
