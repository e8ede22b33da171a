//! The session store: the single source of truth for the recording lifecycle.
//!
//! The store holds the lifecycle state and the active session identifier and
//! is mutated only through the operations below; a caller serializes access
//! (one exclusive owner at a time), so the operations see a total order.
use vstd::prelude::*;

verus! {

/// Lifecycle state of the recording session.
#[derive(Clone, Copy, Debug, PartialEq, Eq, Structural)]
pub enum RecordingState {
    Idle,
    Recording,
    Processing,
}

/// A rejected transition; the store is left unchanged when one is returned.
#[derive(Clone, Copy, Debug, PartialEq, Eq, Structural)]
pub enum SessionError {
    AlreadyActive,
    NotActive,
}

/// Payload of a state-change notification: the new state and the session
/// identifier, present exactly when a session is live.
#[derive(Clone, Debug, PartialEq)]
pub struct RecordingStateUpdate {
    pub state: RecordingState,
    pub session_id: Option<String>,
}

/// The character sequence behind an optional identifier.
pub open spec fn opt_str_view(o: Option<String>) -> Option<Seq<char>> {
    match o {
        Some(s) => Some(s@),
        None => None,
    }
}

/// Mathematical model of the session store.
#[verifier::ext_equal]
pub struct StoreModel {
    pub state: RecordingState,
    pub session_id: Option<Seq<char>>,
}

/// The store invariant: an identifier is live exactly while a session is.
pub open spec fn model_wf(m: StoreModel) -> bool {
    m.session_id is Some <==> m.state != RecordingState::Idle
}

/// `start` succeeds only from `Idle`.
pub open spec fn start_allowed(m: StoreModel) -> bool {
    m.state == RecordingState::Idle
}

/// Effect of `start` with a fresh identifier `id`; a disallowed start
/// changes nothing.
pub open spec fn spec_start(m: StoreModel, id: Seq<char>) -> StoreModel {
    if start_allowed(m) {
        StoreModel { state: RecordingState::Recording, session_id: Some(id) }
    } else {
        m
    }
}

/// `stop` succeeds only from `Recording`: one stop per session.
pub open spec fn stop_allowed(m: StoreModel) -> bool {
    m.state == RecordingState::Recording
}

/// Effect of `stop`: the identifier is retained, only the state moves.
pub open spec fn spec_stop(m: StoreModel) -> StoreModel {
    if stop_allowed(m) {
        StoreModel { state: RecordingState::Processing, session_id: m.session_id }
    } else {
        m
    }
}

/// Effect of `cancel`: the session is discarded from any state.
pub open spec fn spec_cancel(m: StoreModel) -> StoreModel {
    StoreModel { state: RecordingState::Idle, session_id: None }
}

/// Effect of the terminal transition of finalize: the store returns to idle
/// only while `id` still owns it, so a completed cancel is never clobbered.
pub open spec fn spec_release(m: StoreModel, id: Seq<char>) -> StoreModel {
    if m.session_id == Some(id) {
        StoreModel { state: RecordingState::Idle, session_id: None }
    } else {
        m
    }
}

/// Holds the lifecycle state and active identifier; at most one session is
/// live at any time.
pub struct SessionStore {
    state: RecordingState,
    session_id: Option<String>,
}

/// Relies on uuid::Uuid::new_v4 and its hyphenated Display form: a fresh
/// random identifier rendered as 36 characters.
#[verifier::external_body]
fn fresh_session_id() -> (r: String)
    ensures
        r@.len() == 36,
{
    uuid::Uuid::new_v4().to_string()
}

impl SessionStore {
    /// The store's model: its state and the characters of its identifier.
    pub closed spec fn model(self) -> StoreModel {
        StoreModel { state: self.state, session_id: opt_str_view(self.session_id) }
    }

    /// Current lifecycle state.
    pub open spec fn state_of(self) -> RecordingState {
        self.model().state
    }

    /// Current identifier, as characters.
    pub open spec fn id_of(self) -> Option<Seq<char>> {
        self.model().session_id
    }

    /// The store invariant, established by `new` and kept by every operation.
    pub open spec fn wf(self) -> bool {
        model_wf(self.model())
    }

    /// A fresh store: idle, with no session.
    pub fn new() -> (s: Self)
        ensures
            s.wf(),
            s.state_of() == RecordingState::Idle,
            s.id_of() is None,
    {
        SessionStore { state: RecordingState::Idle, session_id: None }
    }

    /// Begin a recording session. From `Idle` this assigns a fresh
    /// identifier and moves to `Recording`; from any other state it fails
    /// with `AlreadyActive` and mutates nothing, so a session identifier is
    /// never overwritten.
    pub fn start(&mut self) -> (r: Result<RecordingStateUpdate, SessionError>)
        requires
            old(self).wf(),
        ensures
            final(self).wf(),
            r is Ok <==> start_allowed(old(self).model()),
            r matches Ok(u) ==> ({
                &&& u.state == RecordingState::Recording
                &&& u.session_id is Some
                &&& opt_str_view(u.session_id) == final(self).id_of()
                &&& final(self).model() == spec_start(old(self).model(), u.session_id->0@)
                &&& u.session_id->0@.len() == 36
            }),
            r matches Err(e) ==> e == SessionError::AlreadyActive && *final(self) == *old(self),
    {
        match self.state {
            RecordingState::Idle => {
                let id = fresh_session_id();
                self.state = RecordingState::Recording;
                self.session_id = Some(id.clone());
                Ok(RecordingStateUpdate {
                    state: RecordingState::Recording,
                    session_id: Some(id),
                })
            },
            _ => Err(SessionError::AlreadyActive),
        }
    }

    /// End the recording phase. From `Recording` this retains the identifier
    /// and moves to `Processing`; from `Idle` or `Processing` it fails with
    /// `NotActive` and mutates nothing.
    pub fn stop(&mut self) -> (r: Result<RecordingStateUpdate, SessionError>)
        requires
            old(self).wf(),
        ensures
            final(self).wf(),
            r is Ok <==> stop_allowed(old(self).model()),
            r matches Ok(u) ==> ({
                &&& final(self).model() == spec_stop(old(self).model())
                &&& u.state == RecordingState::Processing
                &&& opt_str_view(u.session_id) == old(self).id_of()
            }),
            r matches Err(e) ==> e == SessionError::NotActive && *final(self) == *old(self),
    {
        match self.state {
            RecordingState::Recording => {
                self.state = RecordingState::Processing;
                let sid = match &self.session_id {
                    Some(s) => Some(s.clone()),
                    None => None,
                };
                Ok(RecordingStateUpdate { state: RecordingState::Processing, session_id: sid })
            },
            _ => Err(SessionError::NotActive),
        }
    }

    /// Discard any in-flight session immediately; safe from every state, and
    /// a no-op success when the store is already idle.
    pub fn cancel(&mut self) -> (u: RecordingStateUpdate)
        requires
            old(self).wf(),
        ensures
            final(self).wf(),
            final(self).model() == spec_cancel(old(self).model()),
            u.state == RecordingState::Idle,
            u.session_id is None,
    {
        self.state = RecordingState::Idle;
        self.session_id = None;
        RecordingStateUpdate { state: RecordingState::Idle, session_id: None }
    }

    /// Read the current state and identifier.
    pub fn current(&self) -> (u: RecordingStateUpdate)
        ensures
            u.state == self.state_of(),
            opt_str_view(u.session_id) == self.id_of(),
    {
        let sid = match &self.session_id {
            Some(s) => Some(s.clone()),
            None => None,
        };
        RecordingStateUpdate { state: self.state, session_id: sid }
    }

    /// The terminal transition of finalize: return to idle, but only while
    /// `session_id` still owns the store, so a cancel that completed first is
    /// never resurrected. Says whether the store was released.
    pub fn commit_finalize(&mut self, session_id: &String) -> (released: bool)
        requires
            old(self).wf(),
        ensures
            final(self).wf(),
            final(self).model() == spec_release(old(self).model(), session_id@),
            released == (old(self).id_of() == Some(session_id@)),
    {
        let owned = match &self.session_id {
            Some(cur) => *cur == *session_id,
            None => false,
        };
        if owned {
            self.state = RecordingState::Idle;
            self.session_id = None;
        }
        owned
    }
}

impl SessionError {
    /// The caller-facing description of a rejected transition.
    pub fn message(&self) -> (r: String)
        ensures
            *self == SessionError::AlreadyActive ==> r@ == "Recording already in progress"@,
            *self == SessionError::NotActive ==> r@ == "No recording in progress"@,
    {
        match self {
            SessionError::AlreadyActive => String::from_str("Recording already in progress"),
            SessionError::NotActive => String::from_str("No recording in progress"),
        }
    }
}

/// Ingestion point for streamed audio chunks. No streaming voice-activity
/// detector is wired in, so receipt is acknowledged with an empty partial
/// transcription and the lifecycle state is untouched.
pub fn process_audio_chunk() -> (r: String)
    ensures
        r@ == Seq::<char>::empty(),
{
    String::new()
}

/// Every operation preserves the store invariant: the state stays one of the
/// three defined values and an identifier is held exactly while a session is
/// live.
pub proof fn lemma_transitions_preserve_wf(m: StoreModel, id: Seq<char>)
    requires
        model_wf(m),
    ensures
        model_wf(spec_start(m, id)),
        model_wf(spec_stop(m)),
        model_wf(spec_cancel(m)),
        model_wf(spec_release(m, id)),
{
}

/// Two starts with no operation between them: the first wins and records its
/// identifier; the second is rejected and changes nothing, whichever caller
/// reaches the store first.
pub proof fn lemma_start_twice(m: StoreModel, id1: Seq<char>, id2: Seq<char>)
    requires
        start_allowed(m),
    ensures
        ({
            let m1 = spec_start(m, id1);
            &&& m1.session_id == Some(id1)
            &&& !start_allowed(m1)
            &&& spec_start(m1, id2) == m1
        }),
{
}

/// A finalize that lost the race to a completed cancel changes nothing: the
/// cancelled store no longer carries the session's identifier, so its
/// conditional release is a no-op.
pub proof fn lemma_release_after_cancel(m: StoreModel, id: Seq<char>)
    ensures
        spec_release(spec_cancel(m), id) == spec_cancel(m),
{
}

/// A stop on an idle store is rejected and never mutates it.
pub proof fn lemma_stop_on_idle_rejected(m: StoreModel)
    requires
        m.state == RecordingState::Idle,
    ensures
        !stop_allowed(m),
        spec_stop(m) == m,
{
}

/// Cancelling is idempotent: a second cancel observes the idle store that
/// the first one left and changes nothing.
pub proof fn lemma_cancel_idempotent(m: StoreModel)
    ensures
        spec_cancel(spec_cancel(m)) == spec_cancel(m),
        spec_cancel(m).state == RecordingState::Idle,
        spec_cancel(m).session_id is None,
{
}

} // verus!
