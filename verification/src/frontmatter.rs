//! The frontmatter renderer: merges the configured overrides with the
//! fetched metadata and the rendered clock into the YAML preamble.
//!
//! Each field is resolved on its own: an override, when present, wins over
//! the computed date, day and time, over the input URL, over the fetched
//! channel, and over the fetched tags. Field order is a compatibility
//! contract: date, day, time, the optional tags block, url, author.
//!
//! When no override is set, the `url:` field passes the original input URL
//! through. A caller preferring the canonical watch address of a video must
//! hand that form in as the URL: rendering it is a policy of the caller,
//! not a hidden default of this renderer.

use vstd::prelude::*;
use vstd::string::StringExecFns;

use crate::config::{Frontmatter, FrontmatterModel};
use crate::text::{sanitize_tag, spec_sanitize_tag};

verus! {

/// An override when present, the fallback value otherwise.
pub open spec fn spec_override(v: Option<Seq<char>>, fallback: Seq<char>) -> Seq<char> {
    match v {
        Some(s) => s,
        None => fallback,
    }
}

/// The body of the tags block: one indented line per tag, each tag passed
/// through the sanitizer.
pub open spec fn spec_tags_block(tags: Seq<Seq<char>>) -> Seq<char>
    decreases tags.len(),
{
    if tags.len() == 0 {
        Seq::empty()
    } else {
        spec_tags_block(tags.drop_last()) + "  - "@ + spec_sanitize_tag(tags.last()) + "\n"@
    }
}

/// The whole YAML preamble, delimited by `---` lines. The tags block is
/// omitted entirely when the effective tag sequence is empty.
pub open spec fn spec_format_frontmatter(
    fm: FrontmatterModel,
    now_date: Seq<char>,
    now_day: Seq<char>,
    now_time: Seq<char>,
    url: Seq<char>,
    author: Seq<char>,
    tags: Seq<Seq<char>>,
) -> Seq<char> {
    let effective_tags = match fm.tags {
        Some(t) => t,
        None => tags,
    };
    "---\n"@ + "date: "@ + spec_override(fm.date, now_date) + "\n"@ + "day: "@ + spec_override(
        fm.day,
        now_day,
    ) + "\n"@ + "time: "@ + spec_override(fm.time, now_time) + "\n"@ + (if effective_tags.len()
        == 0 {
        Seq::<char>::empty()
    } else {
        "tags:\n"@ + spec_tags_block(effective_tags)
    }) + "url: "@ + spec_override(fm.url, url) + "\n"@ + "author: "@ + spec_override(
        fm.author,
        author,
    ) + "\n"@ + "---\n\n"@
}

/// Renders the YAML preamble from the overrides, the rendered clock, the
/// URL, the author and the tags.
#[verifier::rlimit(50)]
pub fn format_frontmatter(
    frontmatter: &Frontmatter,
    now_date: &str,
    now_day: &str,
    now_time: &str,
    url: &str,
    author: &str,
    tags: &Vec<String>,
) -> (r: String)
    ensures
        r@ == spec_format_frontmatter(
            frontmatter@,
            now_date@,
            now_day@,
            now_time@,
            url@,
            author@,
            tags.deep_view(),
        ),
{
    let mut out = String::new();
    out.append("---\n");
    out.append("date: ");
    match &frontmatter.date {
        Some(d) => out.append(d.as_str()),
        None => out.append(now_date),
    }
    out.append("\n");
    out.append("day: ");
    match &frontmatter.day {
        Some(d) => out.append(d.as_str()),
        None => out.append(now_day),
    }
    out.append("\n");
    out.append("time: ");
    match &frontmatter.time {
        Some(t) => out.append(t.as_str()),
        None => out.append(now_time),
    }
    out.append("\n");
    let effective_tags: &Vec<String> = match &frontmatter.tags {
        Some(t) => t,
        None => tags,
    };
    proof {
        assert(effective_tags.deep_view() == (match frontmatter@.tags {
            Some(t) => t,
            None => tags.deep_view(),
        }));
    }
    if effective_tags.len() > 0 {
        out.append("tags:\n");
        let ghost base = out@;
        let count: usize = effective_tags.len();
        let mut i: usize = 0;
        while i < count
            invariant
                count == effective_tags@.len(),
                i <= count,
                out@ == base + spec_tags_block(effective_tags.deep_view().take(i as int)),
            decreases count - i,
        {
            out.append("  - ");
            let clean = sanitize_tag(effective_tags[i].as_str());
            out.append(clean.as_str());
            out.append("\n");
            proof {
                let tv = effective_tags.deep_view();
                assert(tv.take(i + 1).drop_last() =~= tv.take(i as int));
                assert(tv.take(i + 1).last() == tv[i as int]);
                assert(tv[i as int] == effective_tags@[i as int]@);
                assert(out@ =~= base + spec_tags_block(tv.take(i + 1)));
            }
            i += 1;
        }
        proof {
            assert(effective_tags.deep_view().take(count as int) =~= effective_tags.deep_view());
        }
    }
    out.append("url: ");
    match &frontmatter.url {
        Some(u) => out.append(u.as_str()),
        None => out.append(url),
    }
    out.append("\n");
    out.append("author: ");
    match &frontmatter.author {
        Some(a) => out.append(a.as_str()),
        None => out.append(author),
    }
    out.append("\n");
    out.append("---\n\n");
    proof {
        assert(out@ =~= spec_format_frontmatter(
            frontmatter@,
            now_date@,
            now_day@,
            now_time@,
            url@,
            author@,
            tags.deep_view(),
        ));
    }
    out
}

} // verus!
