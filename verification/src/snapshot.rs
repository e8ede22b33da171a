//! The settings snapshot: an immutable read of the configuration relevant to
//! one finalize call, captured once so that a concurrent settings update can
//! never produce an inconsistent result mid-pipeline.
use vstd::prelude::*;

use crate::session::opt_str_view;
use crate::settings::AppSettingsData;

verus! {

/// Immutable copy of the configuration one finalize call consults: the
/// resolved dictation language, and whether and how to run the formatter.
#[derive(Clone, Debug, PartialEq)]
pub struct SettingsSnapshot {
    pub language: Option<String>,
    pub formatting_enabled: bool,
    pub formatting_model: Option<String>,
    pub formatting_endpoint: Option<String>,
}

/// Mathematical model of a snapshot.
#[verifier::ext_equal]
pub struct SnapshotModel {
    pub language: Option<Seq<char>>,
    pub formatting_enabled: bool,
    pub formatting_model: Option<Seq<char>>,
    pub formatting_endpoint: Option<Seq<char>>,
}

/// The resolved dictation language: unset while auto-detect is on (the
/// speech engine infers it) or while no dictation section exists, else the
/// configured language code.
pub open spec fn spec_resolved_language(s: AppSettingsData) -> Option<Seq<char>> {
    match s.dictation {
        Some(d) => if d.auto_detect_enabled {
            None
        } else {
            Some(d.selected_language@)
        },
        None => None,
    }
}

/// Whether formatting is switched on at all.
pub open spec fn spec_formatting_enabled(s: AppSettingsData) -> bool {
    match s.formatter_config {
        Some(f) => f.enabled,
        None => false,
    }
}

/// The configured formatting model, if any.
pub open spec fn spec_formatting_model(s: AppSettingsData) -> Option<Seq<char>> {
    match s.formatter_config {
        Some(f) => opt_str_view(f.model_id),
        None => None,
    }
}

/// The configured formatting-service endpoint, if any.
pub open spec fn spec_formatting_endpoint(s: AppSettingsData) -> Option<Seq<char>> {
    match s.model_providers_config {
        Some(c) => match c.ollama {
            Some(o) => Some(o.url@),
            None => None,
        },
        None => None,
    }
}

/// The snapshot a given settings value resolves to.
pub open spec fn spec_snapshot_of(s: AppSettingsData) -> SnapshotModel {
    SnapshotModel {
        language: spec_resolved_language(s),
        formatting_enabled: spec_formatting_enabled(s),
        formatting_model: spec_formatting_model(s),
        formatting_endpoint: spec_formatting_endpoint(s),
    }
}

impl SettingsSnapshot {
    /// The snapshot's model.
    pub open spec fn model(self) -> SnapshotModel {
        SnapshotModel {
            language: opt_str_view(self.language),
            formatting_enabled: self.formatting_enabled,
            formatting_model: opt_str_view(self.formatting_model),
            formatting_endpoint: opt_str_view(self.formatting_endpoint),
        }
    }
}

/// Capture the snapshot for one finalize call; the live settings are read
/// here once and never again during that call.
pub fn capture_snapshot(settings: &AppSettingsData) -> (snap: SettingsSnapshot)
    ensures
        snap.model() == spec_snapshot_of(*settings),
{
    let language = match &settings.dictation {
        Some(d) => if d.auto_detect_enabled {
            None
        } else {
            Some(d.selected_language.clone())
        },
        None => None,
    };
    let formatting_enabled = match &settings.formatter_config {
        Some(f) => f.enabled,
        None => false,
    };
    let formatting_model = match &settings.formatter_config {
        Some(f) => match &f.model_id {
            Some(m) => Some(m.clone()),
            None => None,
        },
        None => None,
    };
    let formatting_endpoint = match &settings.model_providers_config {
        Some(c) => match &c.ollama {
            Some(o) => Some(o.url.clone()),
            None => None,
        },
        None => None,
    };
    let snap = SettingsSnapshot { language, formatting_enabled, formatting_model, formatting_endpoint };
    proof {
        assert(snap.model() =~= spec_snapshot_of(*settings));
    }
    snap
}

} // verus!
