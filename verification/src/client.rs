use vstd::prelude::*;

use crate::error::Error;
use crate::events::ClerkAuthEventPayload;
use crate::models::{ClientRecord, EnvironmentRecord, PingRequest, PingResponse};

verus! {

/// What a successful load of the external authentication client reports back:
/// the auth-state snapshot it holds and the environment it fetched.
pub struct LoadedSnapshot {
    pub state: ClerkAuthEventPayload,
    pub environment: EnvironmentRecord,
}

/// The native authentication client handle, as the core observes it.
///
/// The external client owns the network protocol; the core tracks what its
/// decisions depend on: whether a load has succeeded, how many loads were
/// issued, how many native state listeners were registered, the last observed
/// auth-state snapshot, and the outbound authorization header.
pub struct Clerk {
    /// Whether the external client has completed a successful load.
    pub loaded: bool,
    /// How many load invocations have been issued to the external client.
    pub load_attempts: u64,
    /// How many native state listeners have been registered.
    pub listener_registrations: u64,
    /// The last observed auth-state snapshot.
    pub state: ClerkAuthEventPayload,
    /// The environment the external client fetched when it loaded.
    pub environment: EnvironmentRecord,
    /// The outbound authorization header attached to authenticated requests.
    pub authorization_header: Option<String>,
}

/// The liveness probe's response is a function of its request alone: it
/// echoes the value and never touches authentication state.
pub open spec fn ping_response(request: PingRequest) -> PingResponse {
    PingResponse { value: request.value }
}

impl Clerk {
    /// A handle is well formed when the native state listener has been
    /// registered exactly once if and only if a load has succeeded: the
    /// listener is registered inside the guarded section, gated by the
    /// loaded check, so repeated initialize calls never duplicate it.
    pub open spec fn wf(&self) -> bool {
        self.listener_registrations == if self.loaded {
            1u64
        } else {
            0u64
        }
    }

    /// The handle after one pass through the guarded initialization section,
    /// where `outcome` is what the external load reported when one was
    /// needed. A loaded handle is left untouched; otherwise one load is
    /// issued, and only a successful one marks the handle loaded and
    /// registers the state listener.
    pub open spec fn ensure_next(clerk: Clerk, outcome: Result<LoadedSnapshot, String>) -> Clerk {
        if clerk.loaded {
            clerk
        } else {
            match outcome {
                Ok(snapshot) => Clerk {
                    loaded: true,
                    load_attempts: (clerk.load_attempts + 1) as u64,
                    listener_registrations: (clerk.listener_registrations + 1) as u64,
                    state: snapshot.state,
                    environment: snapshot.environment,
                    authorization_header: clerk.authorization_header,
                },
                Err(_) => Clerk { load_attempts: (clerk.load_attempts + 1) as u64, ..clerk },
            }
        }
    }

    /// Whether one pass through the guarded initialization section succeeds.
    pub open spec fn ensure_ok(clerk: Clerk, outcome: Result<LoadedSnapshot, String>) -> bool {
        clerk.loaded || outcome is Ok
    }

    /// The handle after a sequence of guarded initialization passes, one per
    /// serialized caller.
    pub open spec fn run_ensure(clerk: Clerk, outcomes: Seq<Result<LoadedSnapshot, String>>) -> Clerk
        decreases outcomes.len(),
    {
        if outcomes.len() == 0 {
            clerk
        } else {
            Self::run_ensure(Self::ensure_next(clerk, outcomes[0]), outcomes.drop_first())
        }
    }

    /// A fresh handle: nothing loaded, no load issued, no listener
    /// registered, an empty snapshot, no authorization header.
    pub fn new() -> (r: Clerk)
        ensures
            !r.loaded,
            r.load_attempts == 0,
            r.listener_registrations == 0,
            r.wf(),
            r.state.client.id@ == Seq::<char>::empty(),
            r.state.session is None,
            r.state.user is None,
            r.state.organization is None,
            r.environment.id@ == Seq::<char>::empty(),
            r.authorization_header is None,
    {
        Clerk {
            loaded: false,
            load_attempts: 0,
            listener_registrations: 0,
            state: ClerkAuthEventPayload {
                client: ClientRecord { id: String::new() },
                session: None,
                user: None,
                organization: None,
            },
            environment: EnvironmentRecord { id: String::new() },
            authorization_header: None,
        }
    }

    /// Whether the external client has completed a successful load.
    pub fn is_initialized(&self) -> (r: bool)
        ensures
            r == self.loaded,
    {
        self.loaded
    }

    /// One caller's pass through the guarded initialization section. The
    /// guard that serializes callers lives at the host boundary; this is the
    /// decision taken while it is held. `outcome` is what the external load
    /// reported when a load was needed; on the fast path it is ignored. A
    /// failed load leaves the handle not loaded, so a later call retries:
    /// retries are caller-driven, never automatic.
    pub fn ensure_initialized_step(&mut self, outcome: Result<LoadedSnapshot, String>) -> (r: Result<
        (),
        Error,
    >)
        requires
            old(self).load_attempts < u64::MAX,
            old(self).listener_registrations < u64::MAX,
        ensures
            *final(self) == Self::ensure_next(*old(self), outcome),
            r is Ok <==> Self::ensure_ok(*old(self), outcome),
            r matches Err(e) ==> (outcome matches Err(m) && e == Error::Initialization(m)),
            old(self).wf() ==> final(self).wf(),
    {
        if self.loaded {
            Ok(())
        } else {
            self.load_attempts = self.load_attempts + 1;
            match outcome {
                Ok(snapshot) => {
                    self.loaded = true;
                    self.listener_registrations = self.listener_registrations + 1;
                    self.state = snapshot.state;
                    self.environment = snapshot.environment;
                    Ok(())
                },
                Err(message) => Err(Error::Initialization(message)),
            }
        }
    }

    /// Apply an externally authored auth-state snapshot to the handle: the
    /// in-memory record is replaced, nothing else changes. Applying a
    /// snapshot does not itself broadcast: only the external client's own
    /// change detector triggers an outbound event, and that event carries
    /// Native provenance.
    pub fn apply_external_state(&mut self, state: ClerkAuthEventPayload)
        ensures
            *final(self) == (Clerk { state, ..*old(self) }),
    {
        self.state = state;
    }

    /// The client record of the current snapshot; owed exactly when the
    /// client is loaded.
    pub fn client(&self) -> (r: Result<ClientRecord, Error>)
        ensures
            self.loaded ==> (r matches Ok(c) && c == self.state.client),
            !self.loaded ==> (r matches Err(e) && e is Uninitialized),
    {
        if self.loaded {
            Ok(self.state.client.clone())
        } else {
            Err(Error::Uninitialized)
        }
    }

    /// The environment fetched at load; owed exactly when the client is
    /// loaded.
    pub fn environment(&self) -> (r: Result<EnvironmentRecord, Error>)
        ensures
            self.loaded ==> (r matches Ok(e) && e == self.environment),
            !self.loaded ==> (r matches Err(e) && e is Uninitialized),
    {
        if self.loaded {
            Ok(self.environment.clone())
        } else {
            Err(Error::Uninitialized)
        }
    }

    /// The current auth-state snapshot.
    pub fn get_state(&self) -> (r: ClerkAuthEventPayload)
        ensures
            r == self.state,
    {
        self.state.clone()
    }

    /// The currently cached outbound authorization header; reading has no
    /// side effect.
    pub fn get_client_authorization_header(&self) -> (r: Option<String>)
        ensures
            r == self.authorization_header,
    {
        match &self.authorization_header {
            Some(h) => Some(h.clone()),
            None => None,
        }
    }

    /// Store the header value attached to subsequent authenticated requests;
    /// no side effect beyond storage.
    pub fn set_client_authorization_header(&mut self, header: Option<String>)
        ensures
            *final(self) == (Clerk { authorization_header: header, ..*old(self) }),
    {
        self.authorization_header = header;
    }

    /// The liveness probe: echo the value back without touching
    /// authentication state.
    pub fn ping(&self, payload: PingRequest) -> (r: Result<PingResponse, Error>)
        ensures
            r == Ok::<PingResponse, Error>(ping_response(payload)),
    {
        Ok(PingResponse { value: payload.value })
    }
}

impl Clone for Clerk {
    fn clone(&self) -> (r: Self)
        ensures
            r == *self,
    {
        Clerk {
            loaded: self.loaded,
            load_attempts: self.load_attempts,
            listener_registrations: self.listener_registrations,
            state: self.state.clone(),
            environment: self.environment.clone(),
            authorization_header: match &self.authorization_header {
                Some(h) => Some(h.clone()),
                None => None,
            },
        }
    }
}

/// A run of guarded initialization passes leaves a loaded handle exactly as
/// it is: no further load, no further registration.
pub proof fn lemma_run_ensure_loaded(clerk: Clerk, outcomes: Seq<Result<LoadedSnapshot, String>>)
    requires
        clerk.loaded,
    ensures
        Clerk::run_ensure(clerk, outcomes) == clerk,
    decreases outcomes.len(),
{
    if outcomes.len() > 0 {
        lemma_run_ensure_loaded(clerk, outcomes.drop_first());
    }
}

/// Single-flight law: when any number of serialized callers pass through the
/// guarded initialization section against a handle that is not loaded, and
/// the external load reports success, exactly one load is issued, the state
/// listener is registered exactly once, and every caller observes success.
pub proof fn lemma_single_flight(clerk: Clerk, outcomes: Seq<Result<LoadedSnapshot, String>>)
    requires
        !clerk.loaded,
        clerk.load_attempts < u64::MAX,
        clerk.listener_registrations < u64::MAX,
        outcomes.len() >= 1,
        forall|i: int| 0 <= i < outcomes.len() ==> outcomes[i] is Ok,
    ensures
        Clerk::run_ensure(clerk, outcomes).loaded,
        Clerk::run_ensure(clerk, outcomes).load_attempts == clerk.load_attempts + 1,
        Clerk::run_ensure(clerk, outcomes).listener_registrations == clerk.listener_registrations
            + 1,
        forall|i: int|
            0 <= i < outcomes.len() ==> Clerk::ensure_ok(
                Clerk::run_ensure(clerk, outcomes.take(i)),
                outcomes[i],
            ),
{
    let first = Clerk::ensure_next(clerk, outcomes[0]);
    lemma_run_ensure_loaded(first, outcomes.drop_first());
    assert forall|i: int| 0 <= i < outcomes.len() implies Clerk::ensure_ok(
        Clerk::run_ensure(clerk, outcomes.take(i)),
        outcomes[i],
    ) by {
        if i == 0 {
            assert(outcomes.take(0).len() == 0);
        } else {
            assert(outcomes.take(i)[0] == outcomes[0]);
            lemma_run_ensure_loaded(first, outcomes.take(i).drop_first());
        }
    }
}

/// With the external load failing the same way on every pass, every
/// serialized caller observes that same failure, the handle never becomes
/// loaded and no listener is registered; each pass issues one more load,
/// because retries are caller-driven, never automatic.
pub proof fn lemma_ensure_shared_failure(
    clerk: Clerk,
    outcomes: Seq<Result<LoadedSnapshot, String>>,
    message: String,
)
    requires
        !clerk.loaded,
        clerk.load_attempts + outcomes.len() <= u64::MAX,
        forall|i: int|
            0 <= i < outcomes.len() ==> outcomes[i] == Err::<LoadedSnapshot, String>(message),
    ensures
        !Clerk::run_ensure(clerk, outcomes).loaded,
        Clerk::run_ensure(clerk, outcomes).load_attempts == clerk.load_attempts + outcomes.len(),
        Clerk::run_ensure(clerk, outcomes).listener_registrations
            == clerk.listener_registrations,
        forall|i: int|
            0 <= i < outcomes.len() ==> !Clerk::ensure_ok(
                Clerk::run_ensure(clerk, outcomes.take(i)),
                outcomes[i],
            ),
    decreases outcomes.len(),
{
    if outcomes.len() > 0 {
        let next = Clerk::ensure_next(clerk, outcomes[0]);
        lemma_ensure_shared_failure(next, outcomes.drop_first(), message);
        assert forall|i: int| 0 <= i < outcomes.len() implies !Clerk::ensure_ok(
            Clerk::run_ensure(clerk, outcomes.take(i)),
            outcomes[i],
        ) by {
            if i == 0 {
                assert(outcomes.take(0).len() == 0);
            } else {
                assert(outcomes.take(i)[0] == outcomes[0]);
                assert(outcomes.take(i).drop_first() =~= outcomes.drop_first().take(i - 1));
                assert(!Clerk::ensure_ok(
                    Clerk::run_ensure(next, outcomes.drop_first().take(i - 1)),
                    outcomes.drop_first()[i - 1],
                ));
                assert(outcomes.drop_first()[i - 1] == outcomes[i]);
            }
        }
    }
}

/// Over any run of guarded passes, however the loads turn out, a well-formed
/// handle stays well formed: the state listener is registered exactly once if
/// the handle is loaded, and never otherwise; in particular it is never
/// registered twice in one process lifetime.
pub proof fn lemma_run_ensure_wf(clerk: Clerk, outcomes: Seq<Result<LoadedSnapshot, String>>)
    requires
        clerk.wf(),
        clerk.load_attempts + outcomes.len() <= u64::MAX,
    ensures
        Clerk::run_ensure(clerk, outcomes).wf(),
        Clerk::run_ensure(clerk, outcomes).listener_registrations <= 1,
    decreases outcomes.len(),
{
    if outcomes.len() > 0 {
        lemma_run_ensure_wf(Clerk::ensure_next(clerk, outcomes[0]), outcomes.drop_first());
    }
}

/// Idempotence law: after a pass through the guarded initialization section
/// has succeeded, a further pass changes nothing and succeeds immediately.
pub proof fn lemma_ensure_idempotent(
    clerk: Clerk,
    first: Result<LoadedSnapshot, String>,
    second: Result<LoadedSnapshot, String>,
)
    requires
        Clerk::ensure_ok(clerk, first),
    ensures
        Clerk::ensure_next(Clerk::ensure_next(clerk, first), second) == Clerk::ensure_next(
            clerk,
            first,
        ),
        Clerk::ensure_ok(Clerk::ensure_next(clerk, first), second),
{
}

/// Header-independence law: after the outbound authorization header is set,
/// the getter observes exactly that value, nothing else of the handle has
/// changed, and a liveness probe cannot interfere: its response is a function
/// of its request alone.
pub proof fn lemma_header_independence(clerk: Clerk, header: Option<String>, probe: PingRequest)
    ensures
        (Clerk { authorization_header: header, ..clerk }).authorization_header == header,
        (Clerk { authorization_header: header, ..clerk }).state == clerk.state,
        (Clerk { authorization_header: header, ..clerk }).loaded == clerk.loaded,
        clerk.wf() ==> (Clerk { authorization_header: header, ..clerk }).wf(),
        ping_response(probe).value == probe.value,
{
}

} // verus!
