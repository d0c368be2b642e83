//! The single failure value of the pipeline. Every error carries enough
//! context (rule name, pattern, URL or path) to diagnose a run after the
//! fact.

use vstd::prelude::*;
use vstd::string::StringExecFns;

verus! {

/// Why an invocation failed.
#[derive(Debug)]
pub enum NoteError {
    /// A rule's pattern does not compile: a configuration error.
    PatternInvalid { pattern: String },
    /// No rule of the given name exists in the table: a configuration error.
    RuleNotFound { name: String },
    /// A rule names a resolution absent from its table: a configuration
    /// error, never a silent fallback.
    ResolutionNotFound { name: String },
    /// No rule matched the URL and no fallback rule was captured.
    NoMatchingRule { url: String },
    /// A video identifier could not be derived from a classified video URL.
    IdNotFound { url: String },
    /// The metadata provider answered with an empty result set.
    MetadataNotFound { video_id: String },
    /// A directory or file could not be created; the path is kept.
    Io { path: String },
}

/// The mathematical image of a `NoteError`.
pub enum NoteErrorModel {
    PatternInvalid { pattern: Seq<char> },
    RuleNotFound { name: Seq<char> },
    ResolutionNotFound { name: Seq<char> },
    NoMatchingRule { url: Seq<char> },
    IdNotFound { url: Seq<char> },
    MetadataNotFound { video_id: Seq<char> },
    Io { path: Seq<char> },
}

impl View for NoteError {
    type V = NoteErrorModel;

    open spec fn view(&self) -> NoteErrorModel {
        match self {
            NoteError::PatternInvalid { pattern } => NoteErrorModel::PatternInvalid {
                pattern: pattern@,
            },
            NoteError::RuleNotFound { name } => NoteErrorModel::RuleNotFound { name: name@ },
            NoteError::ResolutionNotFound { name } => NoteErrorModel::ResolutionNotFound {
                name: name@,
            },
            NoteError::NoMatchingRule { url } => NoteErrorModel::NoMatchingRule { url: url@ },
            NoteError::IdNotFound { url } => NoteErrorModel::IdNotFound { url: url@ },
            NoteError::MetadataNotFound { video_id } => NoteErrorModel::MetadataNotFound {
                video_id: video_id@,
            },
            NoteError::Io { path } => NoteErrorModel::Io { path: path@ },
        }
    }
}

/// The one-line report of an error.
pub open spec fn spec_message(e: NoteErrorModel) -> Seq<char> {
    match e {
        NoteErrorModel::PatternInvalid { pattern } => "Failed to compile regex: "@ + pattern,
        NoteErrorModel::RuleNotFound { name } => "Link type '"@ + name + "' not found in config"@,
        NoteErrorModel::ResolutionNotFound { name } => "Resolution not found for "@ + name,
        NoteErrorModel::NoMatchingRule { url: _ } => "Invalid URL format"@,
        NoteErrorModel::IdNotFound { url: _ } => "Failed to extract video ID from URL"@,
        NoteErrorModel::MetadataNotFound { video_id } => "Video metadata not found for video_id="@
            + video_id,
        NoteErrorModel::Io { path } => "I/O error at "@ + path,
    }
}

impl NoteError {
    /// Renders the error as one line of diagnostic text.
    pub fn message(&self) -> (r: String)
        ensures
            r@ == spec_message(self@),
    {
        let mut out = String::new();
        match self {
            NoteError::PatternInvalid { pattern } => {
                out.append("Failed to compile regex: ");
                out.append(pattern.as_str());
            },
            NoteError::RuleNotFound { name } => {
                out.append("Link type '");
                out.append(name.as_str());
                out.append("' not found in config");
            },
            NoteError::ResolutionNotFound { name } => {
                out.append("Resolution not found for ");
                out.append(name.as_str());
            },
            NoteError::NoMatchingRule { url: _ } => {
                out.append("Invalid URL format");
            },
            NoteError::IdNotFound { url: _ } => {
                out.append("Failed to extract video ID from URL");
            },
            NoteError::MetadataNotFound { video_id } => {
                out.append("Video metadata not found for video_id=");
                out.append(video_id.as_str());
            },
            NoteError::Io { path } => {
                out.append("I/O error at ");
                out.append(path.as_str());
            },
        }
        proof {
            assert(out@ =~= spec_message(self@));
        }
        out
    }
}

} // verus!
