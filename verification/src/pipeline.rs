//! The finalize pipeline: speech-to-text, optional best-effort formatting,
//! persistence, and the terminal return of the session store to idle.
//!
//! The pipeline is a small machine. `begin` captures the settings snapshot
//! and says which external call to make first; each `on_*` step consumes the
//! outcome of that call and says what to do next; `finish` commits the
//! terminal state transition. The caller performs the external calls (speech
//! engine, formatting service, persistence gateway) between steps, so no
//! lock and no state is held across them.
use vstd::prelude::*;

use crate::records::{NewTranscription, build_record, record_for};
use crate::session::{RecordingState, SessionStore, opt_str_view, spec_release};
use crate::snapshot::{SettingsSnapshot, SnapshotModel, capture_snapshot, spec_resolved_language, spec_snapshot_of};
use crate::settings::AppSettingsData;

verus! {

/// Failure of the speech engine; terminal for the pipeline call.
#[derive(Clone, Copy, Debug, PartialEq, Eq, Structural)]
pub enum SpeechError {
    SpeechEngineUnavailable,
    InvalidAudio,
    InferenceFailed,
}

/// Failure of the formatting service; never surfaced, always collapsed to
/// "use the raw text".
#[derive(Clone, Copy, Debug, PartialEq, Eq, Structural)]
pub enum FormatError {
    ServiceUnreachable,
    InvalidResponse,
}

/// A terminal pipeline failure, as surfaced to the caller.
#[derive(Clone, Copy, Debug, PartialEq, Eq, Structural)]
pub enum PipelineError {
    SpeechEngine(SpeechError),
    StorageFailure,
}

/// Where the pipeline stands.
#[derive(Clone, Debug)]
pub enum FlowPhase {
    /// Waiting for the speech engine's text.
    AwaitingSpeech,
    /// Waiting for the formatting service's answer on `raw_text`.
    AwaitingFormat { raw_text: String },
    /// Waiting for the persistence gateway to store `pending_text`.
    AwaitingPersist { pending_text: String },
    /// The record was stored; `final_text` is the result.
    Completed { final_text: String },
    /// A terminal failure; the session is still released.
    Failed { error: PipelineError },
}

/// What the caller must do next.
#[derive(Debug)]
pub enum FlowAction {
    /// Invoke the speech engine on the recorded audio.
    Transcribe { audio_file_path: String, language: Option<String> },
    /// Invoke the formatting service.
    Format { endpoint: String, model_id: String, text: String },
    /// Hand the record to the persistence gateway.
    Persist { record: NewTranscription },
    /// Call `finish` and report this result.
    Finish { result: Result<String, PipelineError> },
}

/// Mathematical model of a phase.
#[verifier::ext_equal]
pub enum PhaseModel {
    AwaitSpeech,
    AwaitFormat { raw: Seq<char> },
    AwaitPersist { pending: Seq<char> },
    Completed { text: Seq<char> },
    Failed { error: PipelineError },
}

/// The model of an exec phase.
pub open spec fn phase_model(p: FlowPhase) -> PhaseModel {
    match p {
        FlowPhase::AwaitingSpeech => PhaseModel::AwaitSpeech,
        FlowPhase::AwaitingFormat { raw_text } => PhaseModel::AwaitFormat { raw: raw_text@ },
        FlowPhase::AwaitingPersist { pending_text } => PhaseModel::AwaitPersist {
            pending: pending_text@,
        },
        FlowPhase::Completed { final_text } => PhaseModel::Completed { text: final_text@ },
        FlowPhase::Failed { error } => PhaseModel::Failed { error },
    }
}

/// The characters behind a speech outcome.
pub open spec fn speech_result_view(r: Result<String, SpeechError>) -> Result<
    Seq<char>,
    SpeechError,
> {
    match r {
        Ok(s) => Ok(s@),
        Err(e) => Err(e),
    }
}

/// The characters behind a formatting outcome.
pub open spec fn format_result_view(r: Result<String, FormatError>) -> Result<
    Seq<char>,
    FormatError,
> {
    match r {
        Ok(s) => Ok(s@),
        Err(e) => Err(e),
    }
}

/// Formatting runs exactly when the raw text is non-empty, formatting is
/// enabled, and both a model and an endpoint are configured.
pub open spec fn spec_formatting_applicable(snap: SnapshotModel, raw: Seq<char>) -> bool {
    &&& raw.len() > 0
    &&& snap.formatting_enabled
    &&& snap.formatting_model is Some
    &&& snap.formatting_endpoint is Some
}

/// The text a finalize call settles on: the formatted text on success, the
/// raw text on any formatting failure.
pub open spec fn spec_selected_text(raw: Seq<char>, outcome: Result<Seq<char>, FormatError>) -> Seq<
    char,
> {
    match outcome {
        Ok(t) => t,
        Err(_) => raw,
    }
}

/// The first phase: with an audio reference the speech engine runs; without
/// one the raw text is empty and the pipeline goes straight to persistence.
pub open spec fn spec_initial_phase(audio: Option<Seq<char>>) -> PhaseModel {
    match audio {
        Some(_) => PhaseModel::AwaitSpeech,
        None => PhaseModel::AwaitPersist { pending: Seq::<char>::empty() },
    }
}

/// Phase after the speech outcome arrives.
pub open spec fn spec_step_speech(snap: SnapshotModel, result: Result<Seq<char>, SpeechError>) -> PhaseModel {
    match result {
        Ok(raw) => if spec_formatting_applicable(snap, raw) {
            PhaseModel::AwaitFormat { raw }
        } else {
            PhaseModel::AwaitPersist { pending: raw }
        },
        Err(e) => PhaseModel::Failed { error: PipelineError::SpeechEngine(e) },
    }
}

/// Phase after the formatting outcome arrives: always on to persistence,
/// never a failure.
pub open spec fn spec_step_format(raw: Seq<char>, result: Result<Seq<char>, FormatError>) -> PhaseModel {
    PhaseModel::AwaitPersist { pending: spec_selected_text(raw, result) }
}

/// Phase after the persistence outcome.
pub open spec fn spec_step_persist(pending: Seq<char>, ok: bool) -> PhaseModel {
    if ok {
        PhaseModel::Completed { text: pending }
    } else {
        PhaseModel::Failed { error: PipelineError::StorageFailure }
    }
}

/// A phase on which the pipeline stops asking for work.
pub open spec fn phase_terminal(p: PhaseModel) -> bool {
    p is Completed || p is Failed
}

/// One whole run of the pipeline on given outcomes: the phases each step
/// leaves, composed in order, with each outcome consulted only where its
/// step runs.
pub open spec fn spec_run_pipeline(
    snap: SnapshotModel,
    audio: Option<Seq<char>>,
    speech: Result<Seq<char>, SpeechError>,
    formatted: Result<Seq<char>, FormatError>,
    persist_ok: bool,
) -> PhaseModel {
    let p0 = spec_initial_phase(audio);
    let p1 = match p0 {
        PhaseModel::AwaitSpeech => spec_step_speech(snap, speech),
        _ => p0,
    };
    let p2 = match p1 {
        PhaseModel::AwaitFormat { raw } => spec_step_format(raw, formatted),
        _ => p1,
    };
    match p2 {
        PhaseModel::AwaitPersist { pending } => spec_step_persist(pending, persist_ok),
        _ => p2,
    }
}

/// Whether formatting should run, decided on the snapshot and the raw text
/// alone.
pub fn formatting_applicable(snapshot: &SettingsSnapshot, raw: &String) -> (r: bool)
    ensures
        r == spec_formatting_applicable(snapshot.model(), raw@),
{
    !raw.as_str().is_empty() && snapshot.formatting_enabled && snapshot.formatting_model.is_some()
        && snapshot.formatting_endpoint.is_some()
}

/// Collapse a formatting outcome: the formatted text on success, the raw
/// text unchanged on any failure.
pub fn select_final_text(raw: String, outcome: Result<String, FormatError>) -> (r: String)
    ensures
        r@ == spec_selected_text(raw@, format_result_view(outcome)),
{
    match outcome {
        Ok(t) => t,
        Err(_) => raw,
    }
}

/// One finalize call in flight: the session it settles, the audio it reads,
/// the snapshot it captured, and where it stands.
pub struct FinalizeFlow {
    pub session_id: String,
    pub audio_file_path: Option<String>,
    pub snapshot: SettingsSnapshot,
    pub phase: FlowPhase,
}

impl FinalizeFlow {
    /// Begin a finalize call: capture the settings snapshot, and either ask
    /// for the speech engine (an audio reference is present) or go straight
    /// to persisting the empty text (none is).
    pub fn begin(settings: &AppSettingsData, session_id: String, audio_file_path: Option<String>) -> (r:
        (FinalizeFlow, FlowAction))
        ensures
            r.0.session_id == session_id,
            r.0.audio_file_path == audio_file_path,
            r.0.snapshot.model() == spec_snapshot_of(*settings),
            phase_model(r.0.phase) == spec_initial_phase(opt_str_view(audio_file_path)),
            audio_file_path matches Some(a) ==> (r.1 matches FlowAction::Transcribe {
                audio_file_path: ap,
                language,
            } && ap@ == a@ && opt_str_view(language) == spec_resolved_language(*settings)),
            audio_file_path is None ==> (r.1 matches FlowAction::Persist { record } && record_for(
                record,
                Seq::<char>::empty(),
                spec_resolved_language(*settings),
                None::<Seq<char>>,
                session_id@,
            )),
    {
        let snapshot = capture_snapshot(settings);
        match &audio_file_path {
            Some(a) => {
                let language = match &snapshot.language {
                    Some(l) => Some(l.clone()),
                    None => None,
                };
                let action = FlowAction::Transcribe { audio_file_path: a.clone(), language };
                let flow = FinalizeFlow {
                    session_id,
                    audio_file_path,
                    snapshot,
                    phase: FlowPhase::AwaitingSpeech,
                };
                (flow, action)
            },
            None => {
                let record = build_record(String::new(), &snapshot.language, &audio_file_path, &session_id);
                let action = FlowAction::Persist { record };
                let flow = FinalizeFlow {
                    session_id,
                    audio_file_path,
                    snapshot,
                    phase: FlowPhase::AwaitingPersist { pending_text: String::new() },
                };
                (flow, action)
            },
        }
    }

    /// Consume the speech engine's outcome. A failure is terminal; a success
    /// moves on to formatting exactly when applicable, else to persistence
    /// of the raw text.
    pub fn on_speech_result(&mut self, result: Result<String, SpeechError>) -> (action: FlowAction)
        requires
            old(self).phase is AwaitingSpeech,
        ensures
            final(self).session_id == old(self).session_id,
            final(self).audio_file_path == old(self).audio_file_path,
            final(self).snapshot == old(self).snapshot,
            phase_model(final(self).phase) == spec_step_speech(
                old(self).snapshot.model(),
                speech_result_view(result),
            ),
            result matches Err(e) ==> (action matches FlowAction::Finish { result: fr } && fr
                == Err::<String, PipelineError>(PipelineError::SpeechEngine(e))),
            result matches Ok(raw) ==> (if spec_formatting_applicable(
                old(self).snapshot.model(),
                raw@,
            ) {
                action matches FlowAction::Format { endpoint, model_id, text } && Some(endpoint@)
                    == old(self).snapshot.model().formatting_endpoint && Some(model_id@) == old(
                    self,
                ).snapshot.model().formatting_model && text@ == raw@
            } else {
                action matches FlowAction::Persist { record } && record_for(
                    record,
                    raw@,
                    old(self).snapshot.model().language,
                    opt_str_view(old(self).audio_file_path),
                    old(self).session_id@,
                )
            }),
    {
        match result {
            Err(e) => {
                self.phase = FlowPhase::Failed { error: PipelineError::SpeechEngine(e) };
                FlowAction::Finish { result: Err(PipelineError::SpeechEngine(e)) }
            },
            Ok(raw) => {
                if formatting_applicable(&self.snapshot, &raw) {
                    let endpoint = match &self.snapshot.formatting_endpoint {
                        Some(u) => u.clone(),
                        None => {
                            proof {
                                assert(false);
                            }
                            String::new()
                        },
                    };
                    let model_id = match &self.snapshot.formatting_model {
                        Some(m) => m.clone(),
                        None => {
                            proof {
                                assert(false);
                            }
                            String::new()
                        },
                    };
                    let action = FlowAction::Format { endpoint, model_id, text: raw.clone() };
                    self.phase = FlowPhase::AwaitingFormat { raw_text: raw };
                    action
                } else {
                    let record = build_record(
                        raw.clone(),
                        &self.snapshot.language,
                        &self.audio_file_path,
                        &self.session_id,
                    );
                    self.phase = FlowPhase::AwaitingPersist { pending_text: raw };
                    FlowAction::Persist { record }
                }
            },
        }
    }

    /// Consume the formatting outcome. Formatting is best-effort: any
    /// failure falls back silently to the raw text, and this step never
    /// fails the pipeline.
    pub fn on_format_result(&mut self, result: Result<String, FormatError>) -> (action: FlowAction)
        requires
            old(self).phase is AwaitingFormat,
        ensures
            final(self).session_id == old(self).session_id,
            final(self).audio_file_path == old(self).audio_file_path,
            final(self).snapshot == old(self).snapshot,
            phase_model(final(self).phase) == spec_step_format(
                phase_model(old(self).phase)->raw,
                format_result_view(result),
            ),
            action matches FlowAction::Persist { record } && record_for(
                record,
                spec_selected_text(phase_model(old(self).phase)->raw, format_result_view(result)),
                old(self).snapshot.model().language,
                opt_str_view(old(self).audio_file_path),
                old(self).session_id@,
            ),
    {
        let raw = match &self.phase {
            FlowPhase::AwaitingFormat { raw_text } => raw_text.clone(),
            _ => {
                proof {
                    assert(false);
                }
                String::new()
            },
        };
        let chosen = select_final_text(raw, result);
        let record = build_record(
            chosen.clone(),
            &self.snapshot.language,
            &self.audio_file_path,
            &self.session_id,
        );
        self.phase = FlowPhase::AwaitingPersist { pending_text: chosen };
        FlowAction::Persist { record }
    }

    /// Consume the persistence outcome: success completes the pipeline with
    /// the chosen text, failure is terminal and surfaced.
    pub fn on_persist_result(&mut self, ok: bool) -> (action: FlowAction)
        requires
            old(self).phase is AwaitingPersist,
        ensures
            final(self).session_id == old(self).session_id,
            final(self).audio_file_path == old(self).audio_file_path,
            final(self).snapshot == old(self).snapshot,
            phase_model(final(self).phase) == spec_step_persist(
                phase_model(old(self).phase)->pending,
                ok,
            ),
            ok ==> (action matches FlowAction::Finish { result: fr } && fr matches Ok(t) && t@
                == phase_model(old(self).phase)->pending),
            !ok ==> (action matches FlowAction::Finish { result: fr } && fr == Err::<
                String,
                PipelineError,
            >(PipelineError::StorageFailure)),
    {
        let pending = match &self.phase {
            FlowPhase::AwaitingPersist { pending_text } => pending_text.clone(),
            _ => {
                proof {
                    assert(false);
                }
                String::new()
            },
        };
        if ok {
            self.phase = FlowPhase::Completed { final_text: pending.clone() };
            FlowAction::Finish { result: Ok(pending) }
        } else {
            self.phase = FlowPhase::Failed { error: PipelineError::StorageFailure };
            FlowAction::Finish { result: Err(PipelineError::StorageFailure) }
        }
    }

    /// Commit the terminal transition: the store returns to idle with the
    /// identifier cleared — also on a terminal failure, so the session is
    /// never left stuck in `Processing` — unless this session no longer owns
    /// the store (a completed cancel is not clobbered). Storage failure too
    /// releases the session: the policy chosen here prefers a reset store
    /// over a retryable `Processing` state.
    pub fn finish(&self, store: &mut SessionStore) -> (r: Result<String, PipelineError>)
        requires
            phase_terminal(phase_model(self.phase)),
            old(store).wf(),
        ensures
            final(store).wf(),
            final(store).model() == spec_release(old(store).model(), self.session_id@),
            old(store).id_of() == Some(self.session_id@) ==> final(store).state_of()
                == RecordingState::Idle && final(store).id_of() is None,
            self.phase matches FlowPhase::Completed { final_text } ==> (r matches Ok(t) && t@
                == final_text@),
            self.phase matches FlowPhase::Failed { error } ==> r == Err::<String, PipelineError>(
                error,
            ),
    {
        let _released = store.commit_finalize(&self.session_id);
        match &self.phase {
            FlowPhase::Completed { final_text } => Ok(final_text.clone()),
            FlowPhase::Failed { error } => Err(*error),
            _ => {
                proof {
                    assert(false);
                }
                Err(PipelineError::StorageFailure)
            },
        }
    }
}

/// The prompt handed to the formatting service: the fixed instruction,
/// followed by the raw text.
pub fn format_prompt(text: &str) -> (r: String)
    ensures
        r@ == "以下の日本語音声認識テキストを自然な文章に整形してください。句読点を適切に追加し、不要な言い淀みを除去してください。テキストのみを返し、説明は不要です。\n\n"@
            + text@,
{
    let mut prompt = String::from_str(
        "以下の日本語音声認識テキストを自然な文章に整形してください。句読点を適切に追加し、不要な言い淀みを除去してください。テキストのみを返し、説明は不要です。\n\n",
    );
    prompt.append(text);
    prompt
}

/// Whatever the audio presence, the speech outcome, the formatting outcome
/// and the persistence outcome, one run of the pipeline reaches a terminal
/// phase: together with `finish`, finalize always returns the store to idle
/// with the identifier cleared.
pub proof fn lemma_pipeline_reaches_terminal(
    snap: SnapshotModel,
    audio: Option<Seq<char>>,
    speech: Result<Seq<char>, SpeechError>,
    formatted: Result<Seq<char>, FormatError>,
    persist_ok: bool,
)
    ensures
        phase_terminal(spec_run_pipeline(snap, audio, speech, formatted, persist_ok)),
{
}

/// A formatting failure never surfaces: where formatting was applicable and
/// the service failed, the run still completes, with the raw speech text
/// unchanged.
pub proof fn lemma_formatting_failure_falls_back(
    snap: SnapshotModel,
    audio: Seq<char>,
    raw: Seq<char>,
    e: FormatError,
)
    requires
        spec_formatting_applicable(snap, raw),
    ensures
        spec_run_pipeline(snap, Some(audio), Ok(raw), Err(e), true) == (PhaseModel::Completed {
            text: raw,
        }),
{
}

/// Formatting is skipped outright — the raw text is returned and the
/// formatting outcome is never consulted — when formatting is disabled, or
/// no model is configured, or no endpoint is configured, or the raw text is
/// empty.
pub proof fn lemma_formatting_skipped(
    snap: SnapshotModel,
    audio: Seq<char>,
    raw: Seq<char>,
    formatted: Result<Seq<char>, FormatError>,
)
    requires
        !snap.formatting_enabled || snap.formatting_model is None || snap.formatting_endpoint
            is None || raw.len() == 0,
    ensures
        spec_run_pipeline(snap, Some(audio), Ok(raw), formatted, true) == (PhaseModel::Completed {
            text: raw,
        }),
{
}

} // verus!
