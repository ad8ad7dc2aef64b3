use vstd::prelude::*;

verus! {

// The auth-state snapshot is produced by the external authentication client;
// the core never constructs one during normal operation, it only forwards and
// reapplies snapshots. Each record is therefore modeled by the one datum the
// core can rely on: the record's identifier.

/// The client record of an auth-state snapshot.
pub struct ClientRecord {
    pub id: String,
}

/// The session record of an auth-state snapshot.
pub struct SessionRecord {
    pub id: String,
}

/// The user record of an auth-state snapshot.
pub struct UserRecord {
    pub id: String,
}

/// The organization record of an auth-state snapshot.
pub struct OrganizationRecord {
    pub id: String,
}

/// The environment the external client fetched when it loaded.
pub struct EnvironmentRecord {
    pub id: String,
}

impl Clone for ClientRecord {
    fn clone(&self) -> (r: Self)
        ensures
            r == *self,
    {
        ClientRecord { id: self.id.clone() }
    }
}

impl Clone for SessionRecord {
    fn clone(&self) -> (r: Self)
        ensures
            r == *self,
    {
        SessionRecord { id: self.id.clone() }
    }
}

impl Clone for UserRecord {
    fn clone(&self) -> (r: Self)
        ensures
            r == *self,
    {
        UserRecord { id: self.id.clone() }
    }
}

impl Clone for OrganizationRecord {
    fn clone(&self) -> (r: Self)
        ensures
            r == *self,
    {
        OrganizationRecord { id: self.id.clone() }
    }
}

impl Clone for EnvironmentRecord {
    fn clone(&self) -> (r: Self)
        ensures
            r == *self,
    {
        EnvironmentRecord { id: self.id.clone() }
    }
}

/// Request of the liveness probe.
pub struct PingRequest {
    pub value: Option<String>,
}

/// Response of the liveness probe: it echoes the request's value.
pub struct PingResponse {
    pub value: Option<String>,
}

/// Request of the initialize command.
pub struct InitializeRequest {
    /// Clerk publishable key
    pub publishable_key: Option<String>,
    /// Optional proxy URL
    pub proxy: Option<String>,
    /// Optional domain
    pub domain: Option<String>,
}

/// Response of the initialize command.
pub struct InitializeResponse {
    /// Whether initialization was successful
    pub success: bool,
}

impl Default for PingResponse {
    fn default() -> (r: Self)
        ensures
            r.value is None,
    {
        PingResponse { value: None }
    }
}

impl Default for InitializeResponse {
    fn default() -> (r: Self)
        ensures
            !r.success,
    {
        InitializeResponse { success: false }
    }
}

} // verus!
