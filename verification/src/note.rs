//! The note planner: everything about a note that can be decided before the
//! filesystem is touched — destination folder, file name, and the full
//! content, byte for byte.

use vstd::prelude::*;
use vstd::string::StringExecFns;

use crate::classify::{LinkType, LinkTypeModel};
use crate::config::{Frontmatter, FrontmatterModel};
use crate::embed::{generate_embed_code, spec_embed_code};
use crate::frontmatter::{format_frontmatter, spec_format_frontmatter};
use crate::text::{sanitize_filename, spec_sanitize_filename};
use crate::video::{VideoMetadata, VideoMetadataModel};

verus! {

/// The content of a note: preamble, embed fragment, description section.
pub open spec fn spec_note_content(
    frontmatter: Seq<char>,
    embed_code: Seq<char>,
    description: Seq<char>,
) -> Seq<char> {
    frontmatter + "\n"@ + embed_code + "\n\n## Description\n"@ + description
}

/// Composes the note document around a rendered preamble.
pub fn render_note_content(frontmatter: &str, embed_code: &str, description: &str) -> (r: String)
    ensures
        r@ == spec_note_content(frontmatter@, embed_code@, description@),
{
    let mut out = String::new();
    out.append(frontmatter);
    out.append("\n");
    out.append(embed_code);
    out.append("\n\n## Description\n");
    out.append(description);
    proof {
        assert(out@ =~= spec_note_content(frontmatter@, embed_code@, description@));
    }
    out
}

/// The file a note is stored under: the sanitized title with the markdown
/// suffix.
pub open spec fn spec_note_file_name(title: Seq<char>) -> Seq<char> {
    spec_sanitize_filename(title) + ".md"@
}

/// Renders the file name for a note title. The name can never escape its
/// directory: it holds no path separator, and its only dot is the one of the
/// suffix, so no `..` can occur.
pub fn note_file_name(title: &str) -> (r: String)
    ensures
        r@ == spec_note_file_name(title@),
        forall|i: int| 0 <= i < r@.len() ==> r@[i] != '/' && r@[i] != '\\',
        forall|i: int| 0 <= i && i + 1 < r@.len() ==> !(#[trigger] r@[i] == '.' && r@[i + 1] == '.'),
{
    let mut out = sanitize_filename(title);
    let ghost stem = out@;
    out.append(".md");
    proof {
        reveal_strlit(".md");
        assert(out@ =~= spec_note_file_name(title@));
        assert(".md"@.len() == 3);
        assert(".md"@[0] == '.' && ".md"@[1] == 'm' && ".md"@[2] == 'd');
        assert forall|i: int| 0 <= i < out@.len() implies out@[i] != '/' && out@[i] != '\\' by {
            if i < stem.len() {
                assert(out@[i] == stem[i]);
            } else {
                assert(out@[i] == ".md"@[i - stem.len()]);
            }
        }
        assert forall|i: int| 0 <= i && i + 1 < out@.len() implies !(#[trigger] out@[i] == '.'
            && out@[i + 1] == '.') by {
            if i + 1 < stem.len() {
                assert(out@[i] == stem[i]);
            } else if i < stem.len() {
                assert(out@[i] == stem[i] && out@[i + 1] == '.');
            } else {
                assert(out@[i] == ".md"@[i - stem.len()] && out@[i + 1] == ".md"@[i + 1
                    - stem.len()]);
            }
        }
    }
    out
}

/// A planned note: where it goes and what it holds.
pub struct NotePlan {
    pub folder: String,
    pub file_name: String,
    pub content: String,
}

/// The mathematical image of a `NotePlan`.
pub struct NotePlanModel {
    pub folder: Seq<char>,
    pub file_name: Seq<char>,
    pub content: Seq<char>,
}

impl View for NotePlan {
    type V = NotePlanModel;

    open spec fn view(&self) -> NotePlanModel {
        NotePlanModel { folder: self.folder@, file_name: self.file_name@, content: self.content@ }
    }
}

/// The plan for a classified video or short: the fetched title names the
/// file, the fetched channel and tags feed the preamble, and the embed is
/// sized by the rule's resolution.
pub open spec fn spec_plan_video_note(
    url: Seq<char>,
    folder: Seq<char>,
    width: usize,
    height: usize,
    metadata: VideoMetadataModel,
    fm: FrontmatterModel,
    now_date: Seq<char>,
    now_day: Seq<char>,
    now_time: Seq<char>,
) -> NotePlanModel {
    NotePlanModel {
        folder,
        file_name: spec_note_file_name(metadata.title),
        content: spec_note_content(
            spec_format_frontmatter(
                fm,
                now_date,
                now_day,
                now_time,
                url,
                metadata.channel,
                metadata.tags,
            ),
            spec_embed_code(metadata.id, width, height),
            metadata.description,
        ),
    }
}

/// The plan for a generic web link: placeholder text, no embed.
pub open spec fn spec_plan_weblink_note(
    url: Seq<char>,
    folder: Seq<char>,
    fm: FrontmatterModel,
    now_date: Seq<char>,
    now_day: Seq<char>,
    now_time: Seq<char>,
) -> NotePlanModel {
    NotePlanModel {
        folder,
        file_name: spec_note_file_name("Some Title"@),
        content: spec_note_content(
            spec_format_frontmatter(
                fm,
                now_date,
                now_day,
                now_time,
                url,
                "Some Author"@,
                seq!["tag1"@, "tag2"@],
            ),
            Seq::<char>::empty(),
            "Some Description"@,
        ),
    }
}

/// The plan for any classified link; videos and shorts draw on the fetched
/// metadata, web links on placeholders.
pub open spec fn spec_build_note(
    link: LinkTypeModel,
    metadata: Option<VideoMetadataModel>,
    fm: FrontmatterModel,
    now_date: Seq<char>,
    now_day: Seq<char>,
    now_time: Seq<char>,
) -> NotePlanModel
    recommends
        !(link matches LinkTypeModel::WebLink(..)) ==> metadata is Some,
{
    match link {
        LinkTypeModel::Shorts(url, folder, w, h) => spec_plan_video_note(
            url,
            folder,
            w,
            h,
            metadata->0,
            fm,
            now_date,
            now_day,
            now_time,
        ),
        LinkTypeModel::YouTube(url, folder, w, h) => spec_plan_video_note(
            url,
            folder,
            w,
            h,
            metadata->0,
            fm,
            now_date,
            now_day,
            now_time,
        ),
        LinkTypeModel::WebLink(url, folder, _w, _h) => spec_plan_weblink_note(
            url,
            folder,
            fm,
            now_date,
            now_day,
            now_time,
        ),
    }
}

/// Plans the note of a classified video or short.
pub fn plan_video_note(
    url: &str,
    folder: &str,
    width: usize,
    height: usize,
    metadata: &VideoMetadata,
    fm: &Frontmatter,
    now_date: &str,
    now_day: &str,
    now_time: &str,
) -> (r: NotePlan)
    ensures
        r@ == spec_plan_video_note(
            url@,
            folder@,
            width,
            height,
            metadata@,
            fm@,
            now_date@,
            now_day@,
            now_time@,
        ),
{
    let embed_code = generate_embed_code(metadata.id.as_str(), width, height);
    let preamble = format_frontmatter(
        fm,
        now_date,
        now_day,
        now_time,
        url,
        metadata.channel.as_str(),
        &metadata.tags,
    );
    NotePlan {
        folder: folder.to_owned(),
        file_name: note_file_name(metadata.title.as_str()),
        content: render_note_content(
            preamble.as_str(),
            embed_code.as_str(),
            metadata.description.as_str(),
        ),
    }
}

/// Plans the note of a generic web link.
pub fn plan_weblink_note(
    url: &str,
    folder: &str,
    fm: &Frontmatter,
    now_date: &str,
    now_day: &str,
    now_time: &str,
) -> (r: NotePlan)
    ensures
        r@ == spec_plan_weblink_note(url@, folder@, fm@, now_date@, now_day@, now_time@),
{
    let mut tags: Vec<String> = Vec::new();
    tags.push(String::from_str("tag1"));
    tags.push(String::from_str("tag2"));
    proof {
        assert(tags.deep_view() =~= seq!["tag1"@, "tag2"@]);
    }
    let preamble = format_frontmatter(fm, now_date, now_day, now_time, url, "Some Author", &tags);
    proof {
        reveal_strlit("");
        assert(""@ =~= Seq::<char>::empty());
    }
    NotePlan {
        folder: folder.to_owned(),
        file_name: note_file_name("Some Title"),
        content: render_note_content(preamble.as_str(), "", "Some Description"),
    }
}

/// Plans the note of any classified link.
pub fn build_note(
    link: &LinkType,
    metadata: Option<&VideoMetadata>,
    fm: &Frontmatter,
    now_date: &str,
    now_day: &str,
    now_time: &str,
) -> (r: NotePlan)
    requires
        !(link@ matches LinkTypeModel::WebLink(..)) ==> metadata is Some,
    ensures
        r@ == spec_build_note(
            link@,
            match metadata {
                Some(m) => Some(m@),
                None => None,
            },
            fm@,
            now_date@,
            now_day@,
            now_time@,
        ),
{
    match link {
        LinkType::Shorts(url, folder, w, h) => {
            let m = match metadata {
                Some(m) => m,
                None => vstd::pervasive::unreached(),
            };
            plan_video_note(
                url.as_str(),
                folder.as_str(),
                *w,
                *h,
                m,
                fm,
                now_date,
                now_day,
                now_time,
            )
        },
        LinkType::YouTube(url, folder, w, h) => {
            let m = match metadata {
                Some(m) => m,
                None => vstd::pervasive::unreached(),
            };
            plan_video_note(
                url.as_str(),
                folder.as_str(),
                *w,
                *h,
                m,
                fm,
                now_date,
                now_day,
                now_time,
            )
        },
        LinkType::WebLink(url, folder, _w, _h) => plan_weblink_note(
            url.as_str(),
            folder.as_str(),
            fm,
            now_date,
            now_day,
            now_time,
        ),
    }
}

} // verus!
