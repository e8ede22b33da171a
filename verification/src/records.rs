//! Transcription records as handed to the persistence gateway, and the
//! pagination defaults used when listing them.
use vstd::prelude::*;

use crate::session::opt_str_view;

verus! {

/// Pagination options for listing transcriptions, newest first.
#[derive(Clone, Copy, Debug, PartialEq, Eq, Structural)]
pub struct GetTranscriptionsOptions {
    pub limit: Option<i64>,
    pub offset: Option<i64>,
}

/// The page actually fetched: the requested limit and offset, or 50 and 0
/// where a value is absent.
pub fn effective_page(options: &Option<GetTranscriptionsOptions>) -> (p: (i64, i64))
    ensures
        p.0 == (match *options {
            Some(o) => match o.limit {
                Some(l) => l,
                None => 50,
            },
            None => 50,
        }),
        p.1 == (match *options {
            Some(o) => match o.offset {
                Some(x) => x,
                None => 0,
            },
            None => 0,
        }),
{
    match options {
        Some(o) => {
            let limit: i64 = match o.limit {
                Some(l) => l,
                None => 50,
            };
            let offset: i64 = match o.offset {
                Some(x) => x,
                None => 0,
            };
            (limit, offset)
        },
        None => (50, 0),
    }
}

/// Free-form metadata stored with a transcription: the session that produced
/// it and the source channel.
#[derive(Clone, Debug, PartialEq)]
pub struct TranscriptionMeta {
    pub session_id: String,
    pub source: String,
}

/// A transcription record as handed to the persistence gateway on creation.
#[derive(Clone, Debug, PartialEq)]
pub struct NewTranscription {
    pub text: String,
    pub language: Option<String>,
    pub audio_file: Option<String>,
    pub duration: Option<i64>,
    pub speech_model: Option<String>,
    pub formatting_model: Option<String>,
    pub meta: Option<TranscriptionMeta>,
}

/// What the record of a finalized session holds: the chosen text, the
/// resolved language (falling back to the "ja" locale when unresolved), the
/// audio reference, no explicit duration, the speech-engine tag, no
/// formatting-model tag, and metadata naming the session and the microphone
/// source.
pub open spec fn record_for(
    rec: NewTranscription,
    text: Seq<char>,
    language: Option<Seq<char>>,
    audio: Option<Seq<char>>,
    session_id: Seq<char>,
) -> bool {
    &&& rec.text@ == text
    &&& opt_str_view(rec.language) == (match language {
        Some(l) => Some(l),
        None => Some("ja"@),
    })
    &&& opt_str_view(rec.audio_file) == audio
    &&& rec.duration is None
    &&& opt_str_view(rec.speech_model) == Some("whisper-local"@)
    &&& rec.formatting_model is None
    &&& rec.meta matches Some(m) && m.session_id@ == session_id && m.source@ == "microphone"@
}

/// Build the record persisted for a finalized session.
pub fn build_record(
    text: String,
    language: &Option<String>,
    audio_file: &Option<String>,
    session_id: &String,
) -> (rec: NewTranscription)
    ensures
        record_for(rec, text@, opt_str_view(*language), opt_str_view(*audio_file), session_id@),
{
    NewTranscription {
        text,
        language: match language {
            Some(l) => Some(l.clone()),
            None => Some(String::from_str("ja")),
        },
        audio_file: match audio_file {
            Some(a) => Some(a.clone()),
            None => None,
        },
        duration: None,
        speech_model: Some(String::from_str("whisper-local")),
        formatting_model: None,
        meta: Some(TranscriptionMeta {
            session_id: session_id.clone(),
            source: String::from_str("microphone"),
        }),
    }
}

} // verus!
