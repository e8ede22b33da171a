use kotoba_core::pipeline::{
    FinalizeFlow, FlowAction, FormatError, PipelineError, SpeechError, format_prompt,
    formatting_applicable, select_final_text,
};
use kotoba_core::records::NewTranscription;
use kotoba_core::session::{RecordingState, SessionStore};
use kotoba_core::settings::{
    AppSettingsData, DictationSettings, FormatterConfig, ModelProvidersConfig, OllamaConfig,
};
use kotoba_core::snapshot::capture_snapshot;

fn settings_with_formatting() -> AppSettingsData {
    let mut s = AppSettingsData::default();
    s.formatter_config = Some(FormatterConfig {
        enabled: true,
        model_id: Some("fmt-model".to_string()),
        fallback_model_id: None,
    });
    s.model_providers_config = Some(ModelProvidersConfig {
        ollama: Some(OllamaConfig {
            url: "http://localhost:11434".to_string(),
        }),
        default_speech_model: None,
        default_language_model: None,
    });
    s
}

fn expect_persist(action: FlowAction) -> NewTranscription {
    match action {
        FlowAction::Persist { record } => record,
        other => panic!("expected a persist action, got {other:?}"),
    }
}

fn expect_finish(action: FlowAction) -> Result<String, PipelineError> {
    match action {
        FlowAction::Finish { result } => result,
        other => panic!("expected a finish action, got {other:?}"),
    }
}

#[test]
fn full_lifecycle_with_speech_and_no_formatting() {
    // start -> (Recording, id); stop -> (Processing, same id); finalize with
    // audio and the speech engine answering "hello world", formatting
    // disabled: the record holds "hello world" and the store returns to idle.
    let mut store = SessionStore::new();
    let id = store.start().unwrap().session_id.unwrap();
    let stopped = store.stop().unwrap();
    assert_eq!(stopped.state, RecordingState::Processing);
    assert_eq!(stopped.session_id.as_deref(), Some(id.as_str()));

    let settings = AppSettingsData::default();
    let (mut flow, action) =
        FinalizeFlow::begin(&settings, id.clone(), Some("a.wav".to_string()));
    match action {
        FlowAction::Transcribe {
            audio_file_path,
            language,
        } => {
            assert_eq!(audio_file_path, "a.wav");
            assert!(language.is_none());
        }
        other => panic!("expected a transcribe action, got {other:?}"),
    }

    let record = expect_persist(flow.on_speech_result(Ok("hello world".to_string())));
    assert_eq!(record.text, "hello world");
    assert_eq!(record.language.as_deref(), Some("ja"));
    assert_eq!(record.audio_file.as_deref(), Some("a.wav"));
    assert!(record.duration.is_none());
    assert_eq!(record.speech_model.as_deref(), Some("whisper-local"));
    assert!(record.formatting_model.is_none());
    let meta = record.meta.expect("metadata is recorded");
    assert_eq!(meta.session_id, id);
    assert_eq!(meta.source, "microphone");

    let result = expect_finish(flow.on_persist_result(true));
    assert_eq!(result.unwrap(), "hello world");
    let final_text = flow.finish(&mut store).expect("the pipeline succeeded");
    assert_eq!(final_text, "hello world");
    let current = store.current();
    assert_eq!(current.state, RecordingState::Idle);
    assert!(current.session_id.is_none());
}

#[test]
fn finalize_without_audio_skips_speech_and_persists_empty_text() {
    let mut store = SessionStore::new();
    let id = store.start().unwrap().session_id.unwrap();
    store.stop().unwrap();

    let settings = settings_with_formatting();
    let (mut flow, action) = FinalizeFlow::begin(&settings, id.clone(), None);
    let record = expect_persist(action);
    assert_eq!(record.text, "");
    assert!(record.audio_file.is_none());
    let result = expect_finish(flow.on_persist_result(true));
    assert_eq!(result.unwrap(), "");
    assert_eq!(flow.finish(&mut store).unwrap(), "");
    assert_eq!(store.current().state, RecordingState::Idle);
}

#[test]
fn explicit_language_is_handed_to_the_speech_engine_and_recorded() {
    let mut settings = AppSettingsData::default();
    settings.dictation = Some(DictationSettings {
        auto_detect_enabled: false,
        selected_language: "en".to_string(),
    });
    let (mut flow, action) =
        FinalizeFlow::begin(&settings, "sid".to_string(), Some("a.wav".to_string()));
    match action {
        FlowAction::Transcribe { language, .. } => assert_eq!(language.as_deref(), Some("en")),
        other => panic!("expected a transcribe action, got {other:?}"),
    }
    let record = expect_persist(flow.on_speech_result(Ok("hi".to_string())));
    assert_eq!(record.language.as_deref(), Some("en"));
}

#[test]
fn formatting_runs_when_enabled_and_configured() {
    let settings = settings_with_formatting();
    let (mut flow, _) =
        FinalizeFlow::begin(&settings, "sid".to_string(), Some("a.wav".to_string()));
    match flow.on_speech_result(Ok("raw text".to_string())) {
        FlowAction::Format {
            endpoint,
            model_id,
            text,
        } => {
            assert_eq!(endpoint, "http://localhost:11434");
            assert_eq!(model_id, "fmt-model");
            assert_eq!(text, "raw text");
        }
        other => panic!("expected a format action, got {other:?}"),
    }
    let record = expect_persist(flow.on_format_result(Ok("Polished text.".to_string())));
    assert_eq!(record.text, "Polished text.");
    let result = expect_finish(flow.on_persist_result(true));
    assert_eq!(result.unwrap(), "Polished text.");
}

#[test]
fn formatting_failure_falls_back_to_the_raw_text_and_still_succeeds() {
    let settings = settings_with_formatting();
    let mut store = SessionStore::new();
    let id = store.start().unwrap().session_id.unwrap();
    store.stop().unwrap();
    let (mut flow, _) = FinalizeFlow::begin(&settings, id, Some("a.wav".to_string()));
    match flow.on_speech_result(Ok("raw text".to_string())) {
        FlowAction::Format { .. } => {}
        other => panic!("expected a format action, got {other:?}"),
    }
    let record = expect_persist(flow.on_format_result(Err(FormatError::ServiceUnreachable)));
    assert_eq!(record.text, "raw text");
    let result = expect_finish(flow.on_persist_result(true));
    assert_eq!(result.unwrap(), "raw text");
    assert_eq!(flow.finish(&mut store).unwrap(), "raw text");
    assert_eq!(store.current().state, RecordingState::Idle);
}

#[test]
fn formatting_is_skipped_when_disabled() {
    let mut settings = settings_with_formatting();
    settings.formatter_config = Some(FormatterConfig {
        enabled: false,
        model_id: Some("fmt-model".to_string()),
        fallback_model_id: None,
    });
    let (mut flow, _) =
        FinalizeFlow::begin(&settings, "sid".to_string(), Some("a.wav".to_string()));
    let record = expect_persist(flow.on_speech_result(Ok("raw".to_string())));
    assert_eq!(record.text, "raw");
}

#[test]
fn formatting_is_skipped_without_a_model_id() {
    let mut settings = settings_with_formatting();
    settings.formatter_config = Some(FormatterConfig {
        enabled: true,
        model_id: None,
        fallback_model_id: None,
    });
    let (mut flow, _) =
        FinalizeFlow::begin(&settings, "sid".to_string(), Some("a.wav".to_string()));
    let record = expect_persist(flow.on_speech_result(Ok("raw".to_string())));
    assert_eq!(record.text, "raw");
}

#[test]
fn formatting_is_skipped_without_an_endpoint() {
    let mut settings = settings_with_formatting();
    settings.model_providers_config = Some(ModelProvidersConfig {
        ollama: None,
        default_speech_model: None,
        default_language_model: None,
    });
    let (mut flow, _) =
        FinalizeFlow::begin(&settings, "sid".to_string(), Some("a.wav".to_string()));
    let record = expect_persist(flow.on_speech_result(Ok("raw".to_string())));
    assert_eq!(record.text, "raw");
}

#[test]
fn formatting_is_skipped_on_empty_raw_text() {
    let settings = settings_with_formatting();
    let (mut flow, _) =
        FinalizeFlow::begin(&settings, "sid".to_string(), Some("a.wav".to_string()));
    let record = expect_persist(flow.on_speech_result(Ok(String::new())));
    assert_eq!(record.text, "");
}

#[test]
fn speech_failure_is_terminal_but_the_session_returns_to_idle() {
    let mut store = SessionStore::new();
    let id = store.start().unwrap().session_id.unwrap();
    store.stop().unwrap();
    let settings = AppSettingsData::default();
    let (mut flow, _) = FinalizeFlow::begin(&settings, id, Some("a.wav".to_string()));
    let result = expect_finish(flow.on_speech_result(Err(SpeechError::InferenceFailed)));
    assert_eq!(
        result.unwrap_err(),
        PipelineError::SpeechEngine(SpeechError::InferenceFailed)
    );
    let surfaced = flow.finish(&mut store);
    assert_eq!(
        surfaced.unwrap_err(),
        PipelineError::SpeechEngine(SpeechError::InferenceFailed)
    );
    let current = store.current();
    assert_eq!(current.state, RecordingState::Idle);
    assert!(current.session_id.is_none());
}

#[test]
fn storage_failure_is_surfaced_and_the_session_still_resets_to_idle() {
    // The policy pinned here: a persistence failure does not leave the
    // session stuck in Processing.
    let mut store = SessionStore::new();
    let id = store.start().unwrap().session_id.unwrap();
    store.stop().unwrap();
    let settings = AppSettingsData::default();
    let (mut flow, _) = FinalizeFlow::begin(&settings, id, Some("a.wav".to_string()));
    expect_persist(flow.on_speech_result(Ok("text".to_string())));
    let result = expect_finish(flow.on_persist_result(false));
    assert_eq!(result.unwrap_err(), PipelineError::StorageFailure);
    assert_eq!(
        flow.finish(&mut store).unwrap_err(),
        PipelineError::StorageFailure
    );
    assert_eq!(store.current().state, RecordingState::Idle);
}

#[test]
fn finish_does_not_clobber_a_cancel_that_completed_first() {
    let mut store = SessionStore::new();
    let id = store.start().unwrap().session_id.unwrap();
    store.stop().unwrap();
    let settings = AppSettingsData::default();
    let (mut flow, _) = FinalizeFlow::begin(&settings, id, Some("a.wav".to_string()));
    expect_persist(flow.on_speech_result(Ok("text".to_string())));
    expect_finish(flow.on_persist_result(true));

    // A cancel lands while the pipeline is mid-flight, and a new session
    // starts; the old finalize must not resurrect or clear the new session.
    store.cancel();
    let new_id = store.start().unwrap().session_id.unwrap();
    let result = flow.finish(&mut store);
    assert_eq!(result.unwrap(), "text");
    let current = store.current();
    assert_eq!(current.state, RecordingState::Recording);
    assert_eq!(current.session_id.as_deref(), Some(new_id.as_str()));
}

#[test]
fn formatting_applicability_is_decided_on_snapshot_and_text() {
    let snap = capture_snapshot(&settings_with_formatting());
    assert!(formatting_applicable(&snap, &"text".to_string()));
    assert!(!formatting_applicable(&snap, &String::new()));
    let bare = capture_snapshot(&AppSettingsData::default());
    assert!(!formatting_applicable(&bare, &"text".to_string()));
}

#[test]
fn select_final_text_prefers_success_and_falls_back_on_failure() {
    assert_eq!(
        select_final_text("raw".to_string(), Ok("neat".to_string())),
        "neat"
    );
    assert_eq!(
        select_final_text(
            "raw".to_string(),
            Err(FormatError::InvalidResponse)
        ),
        "raw"
    );
}

#[test]
fn the_format_prompt_keeps_the_instruction_and_appends_the_text() {
    let p = format_prompt("こんにちは");
    assert!(p.starts_with("以下の日本語音声認識テキスト"));
    assert!(p.ends_with("\n\nこんにちは"));
}
