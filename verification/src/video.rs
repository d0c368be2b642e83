//! Video handling: pulling the identifier out of a recognized video URL,
//! the metadata record, and the assembly of a provider answer into it.

use vstd::prelude::*;
use vstd::string::StringExecFns;

use crate::errors::{NoteError, NoteErrorModel};
use crate::pattern::{regex_capture, regex_capture_group, regex_compiles};

verus! {

/// The fixed pattern recognizing the canonical video URL shapes: the short
/// host, `watch?v=`, `embed/`, `v/` and `shorts/` paths; its fifth group
/// captures the identifier.
pub open spec fn spec_video_id_pattern() -> Seq<char> {
    "(youtu\\.be/|youtube\\.com/(watch\\?(.*&)?v=|(embed|v|shorts)/))([^?&\">]+)"@
}

/// Pulls the video identifier out of a URL: the capture that follows the
/// first recognized prefix. Fails exactly when the URL holds no such shape.
pub fn extract_video_id(url: &str) -> (r: Result<String, NoteError>)
    ensures
        match r {
            Ok(id) => regex_compiles(spec_video_id_pattern()) && regex_capture(
                spec_video_id_pattern(),
                url@,
                5,
            ) == Some(id@),
            Err(e) => match e@ {
                NoteErrorModel::PatternInvalid { pattern } => pattern == spec_video_id_pattern()
                    && !regex_compiles(spec_video_id_pattern()),
                NoteErrorModel::IdNotFound { url: u } => u == url@ && regex_compiles(
                    spec_video_id_pattern(),
                ) && regex_capture(spec_video_id_pattern(), url@, 5) is None,
                _ => false,
            },
        },
{
    let pattern = "(youtu\\.be/|youtube\\.com/(watch\\?(.*&)?v=|(embed|v|shorts)/))([^?&\">]+)";
    match regex_capture_group(pattern, url, 5) {
        None => Err(NoteError::PatternInvalid { pattern: String::from_str(pattern) }),
        Some(None) => Err(NoteError::IdNotFound { url: url.to_owned() }),
        Some(Some(id)) => Ok(id),
    }
}

/// What the metadata provider answered for one video.
pub struct VideoMetadata {
    pub id: String,
    pub title: String,
    pub description: String,
    pub channel: String,
    pub published_at: String,
    pub tags: Vec<String>,
}

/// The mathematical image of a `VideoMetadata`.
pub struct VideoMetadataModel {
    pub id: Seq<char>,
    pub title: Seq<char>,
    pub description: Seq<char>,
    pub channel: Seq<char>,
    pub published_at: Seq<char>,
    pub tags: Seq<Seq<char>>,
}

impl View for VideoMetadata {
    type V = VideoMetadataModel;

    open spec fn view(&self) -> VideoMetadataModel {
        VideoMetadataModel {
            id: self.id@,
            title: self.title@,
            description: self.description@,
            channel: self.channel@,
            published_at: self.published_at@,
            tags: self.tags.deep_view(),
        }
    }
}

/// A present field, or empty when the provider left it out.
pub open spec fn spec_or_empty(v: Option<Seq<char>>) -> Seq<char> {
    match v {
        Some(s) => s,
        None => Seq::empty(),
    }
}

/// The request that asks the provider for one video's snippet.
pub open spec fn spec_metadata_request_url(video_id: Seq<char>, api_key: Seq<char>) -> Seq<char> {
    "https://www.googleapis.com/youtube/v3/videos?id="@ + video_id + "&part=snippet&key="@
        + api_key
}

/// Composes the provider request for a video identifier.
pub fn metadata_request_url(video_id: &str, api_key: &str) -> (r: String)
    ensures
        r@ == spec_metadata_request_url(video_id@, api_key@),
{
    let mut out = String::new();
    out.append("https://www.googleapis.com/youtube/v3/videos?id=");
    out.append(video_id);
    out.append("&part=snippet&key=");
    out.append(api_key);
    proof {
        assert(out@ =~= spec_metadata_request_url(video_id@, api_key@));
    }
    out
}

/// Builds the metadata record from a provider answer: an empty result set is
/// a distinct failure, and every absent field defaults to empty.
pub fn assemble_metadata(
    video_id: &str,
    found: bool,
    title: Option<String>,
    description: Option<String>,
    channel: Option<String>,
    published_at: Option<String>,
    tags: Option<Vec<String>>,
) -> (r: Result<VideoMetadata, NoteError>)
    ensures
        match r {
            Ok(m) => found && m@ == (VideoMetadataModel {
                id: video_id@,
                title: spec_or_empty(title.deep_view()),
                description: spec_or_empty(description.deep_view()),
                channel: spec_or_empty(channel.deep_view()),
                published_at: spec_or_empty(published_at.deep_view()),
                tags: match tags.deep_view() {
                    Some(t) => t,
                    None => Seq::empty(),
                },
            }),
            Err(e) => !found && e@ == (NoteErrorModel::MetadataNotFound { video_id: video_id@ }),
        },
{
    if !found {
        return Err(NoteError::MetadataNotFound { video_id: video_id.to_owned() });
    }
    let ghost tags0 = tags.deep_view();
    let m = VideoMetadata {
        id: video_id.to_owned(),
        title: unwrap_or_empty(title),
        description: unwrap_or_empty(description),
        channel: unwrap_or_empty(channel),
        published_at: unwrap_or_empty(published_at),
        tags: match tags {
            Some(t) => t,
            None => Vec::new(),
        },
    };
    proof {
        assert(m@.tags =~= (match tags0 {
            Some(t) => t,
            None => Seq::<Seq<char>>::empty(),
        }));
    }
    Ok(m)
}

fn unwrap_or_empty(v: Option<String>) -> (r: String)
    ensures
        r@ == spec_or_empty(v.deep_view()),
{
    match v {
        Some(s) => s,
        None => String::new(),
    }
}

} // verus!
