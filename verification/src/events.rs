use vstd::prelude::*;

use crate::client::Clerk;
use crate::models::{ClientRecord, OrganizationRecord, SessionRecord, UserRecord};

verus! {

/// Provenance of an auth-state change event: every event on the broadcast
/// channel is tagged with its origin, so that the inbound path can tell the
/// system's own echo from a genuine surface-authored update.
pub enum EventSource {
    /// The event was emitted by the native side.
    Native,
    /// The event was authored by the presentation surface with this identity.
    Surface(String),
}

impl EventSource {
    pub fn is_native(&self) -> (r: bool)
        ensures
            r == (*self is Native),
    {
        matches!(self, EventSource::Native)
    }
}

impl Clone for EventSource {
    fn clone(&self) -> (r: Self)
        ensures
            r == *self,
    {
        match self {
            EventSource::Native => EventSource::Native,
            EventSource::Surface(s) => EventSource::Surface(s.clone()),
        }
    }
}

/// The auth-state snapshot carried by a change event: who is signed in, with
/// what session, as which user and organization.
pub struct ClerkAuthEventPayload {
    pub client: ClientRecord,
    pub session: Option<SessionRecord>,
    pub user: Option<UserRecord>,
    pub organization: Option<OrganizationRecord>,
}

impl ClerkAuthEventPayload {
    /// Assemble the snapshot the native listener callback receives, part by
    /// part, as the external client hands them over.
    pub fn new(
        client: ClientRecord,
        session: Option<SessionRecord>,
        user: Option<UserRecord>,
        organization: Option<OrganizationRecord>,
    ) -> (r: ClerkAuthEventPayload)
        ensures
            r == (ClerkAuthEventPayload { client, session, user, organization }),
    {
        ClerkAuthEventPayload { client, session, user, organization }
    }
}

impl Clone for ClerkAuthEventPayload {
    fn clone(&self) -> (r: Self)
        ensures
            r == *self,
    {
        let r = ClerkAuthEventPayload {
            client: self.client.clone(),
            session: self.session.clone(),
            user: self.user.clone(),
            organization: self.organization.clone(),
        };
        proof {
            assert(r.session == self.session);
            assert(r.user == self.user);
            assert(r.organization == self.organization);
        }
        r
    }
}

/// A state-change event on the broadcast channel: the payload plus the
/// provenance tag of its author.
pub struct ClerkAuthEvent {
    pub source: EventSource,
    pub payload: ClerkAuthEventPayload,
}

impl Clone for ClerkAuthEvent {
    fn clone(&self) -> (r: Self)
        ensures
            r == *self,
    {
        ClerkAuthEvent { source: self.source.clone(), payload: self.payload.clone() }
    }
}

/// The event the native side broadcasts for a state change it observed.
pub open spec fn native_event(payload: ClerkAuthEventPayload) -> ClerkAuthEvent {
    ClerkAuthEvent { source: EventSource::Native, payload }
}

/// The event a presentation surface authors for a state update of its own.
pub open spec fn surface_event(surface: String, payload: ClerkAuthEventPayload) -> ClerkAuthEvent {
    ClerkAuthEvent { source: EventSource::Surface(surface), payload }
}

/// Whether the inbound path applies an event to the native handle: only
/// events of non-native origin are applied.
pub open spec fn inbound_applies(event: ClerkAuthEvent) -> bool {
    !(event.source is Native)
}

/// The native handle after the inbound path has seen an event.
pub open spec fn inbound_next(clerk: Clerk, event: ClerkAuthEvent) -> Clerk {
    if inbound_applies(event) {
        Clerk { state: event.payload, ..clerk }
    } else {
        clerk
    }
}

impl ClerkAuthEvent {
    /// Outbound path of the event bridge: wrap a native state change for
    /// broadcast to every presentation surface. Outbound events always carry
    /// Native provenance.
    pub fn native(payload: ClerkAuthEventPayload) -> (r: ClerkAuthEvent)
        ensures
            r == native_event(payload),
    {
        ClerkAuthEvent { source: EventSource::Native, payload }
    }

    /// An event as authored by the presentation surface with the given
    /// identity.
    pub fn from_surface(surface: String, payload: ClerkAuthEventPayload) -> (r: ClerkAuthEvent)
        ensures
            r == surface_event(surface, payload),
    {
        ClerkAuthEvent { source: EventSource::Surface(surface), payload }
    }
}

/// Inbound path of the event bridge: apply a surface-authored event to the
/// native handle; drop the system's own echo (Native provenance) unapplied.
/// Returns whether the event was applied.
pub fn handle_inbound_event(clerk: &mut Clerk, event: &ClerkAuthEvent) -> (applied: bool)
    ensures
        applied == inbound_applies(*event),
        *final(clerk) == inbound_next(*old(clerk), *event),
{
    match &event.source {
        EventSource::Native => false,
        EventSource::Surface(_) => {
            clerk.apply_external_state(event.payload.clone());
            true
        },
    }
}

/// Loop-prevention law: an event broadcast outward with Native provenance,
/// fed back into the inbound path, is discarded: it is not applied, and the
/// native handle is left exactly as it was.
pub proof fn lemma_loop_prevention(clerk: Clerk, payload: ClerkAuthEventPayload)
    ensures
        !inbound_applies(native_event(payload)),
        inbound_next(clerk, native_event(payload)) == clerk,
{
}

/// Foreign-update propagation law: an event authored by a surface is applied
/// to the native handle exactly as sent, only the snapshot changes, and the
/// native re-broadcast of the applied snapshot is itself dropped by every
/// surface's inbound path, the originating surface included.
pub proof fn lemma_foreign_update(clerk: Clerk, surface: String, payload: ClerkAuthEventPayload)
    ensures
        inbound_applies(surface_event(surface, payload)),
        inbound_next(clerk, surface_event(surface, payload)) == (Clerk { state: payload, ..clerk }),
        !inbound_applies(native_event(inbound_next(clerk, surface_event(surface, payload)).state)),
        clerk.wf() ==> inbound_next(clerk, surface_event(surface, payload)).wf(),
{
}

} // verus!
