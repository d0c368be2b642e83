//! The dispatcher: matches a URL against the ordered rule table and produces
//! a classified link.
//!
//! The scan is first-match-wins for every rule but the fallback: a match on
//! a rule named `default` is only remembered, and the scan goes on, so that
//! a more specific rule standing after the fallback can still win. Only when
//! no other rule matched does the remembered fallback decide.

use vstd::prelude::*;

use crate::config::{Config, ConfigModel, LinkModel};
use crate::errors::{NoteError, NoteErrorModel};
use crate::pattern::{regex_compiles, regex_is_match, regex_matches};
use crate::resolution::{lookup_resolution, spec_lookup_resolution};
use crate::text::str_eq;

verus! {

/// A classified link: the URL, the destination folder, and the embed size.
/// The zero-by-zero size appears exactly on the fallback web-link path.
pub enum LinkType {
    Shorts(String, String, usize, usize),
    YouTube(String, String, usize, usize),
    WebLink(String, String, usize, usize),
}

/// The mathematical image of a `LinkType`.
pub enum LinkTypeModel {
    Shorts(Seq<char>, Seq<char>, usize, usize),
    YouTube(Seq<char>, Seq<char>, usize, usize),
    WebLink(Seq<char>, Seq<char>, usize, usize),
}

impl View for LinkType {
    type V = LinkTypeModel;

    open spec fn view(&self) -> LinkTypeModel {
        match self {
            LinkType::Shorts(url, folder, w, h) => LinkTypeModel::Shorts(url@, folder@, *w, *h),
            LinkType::YouTube(url, folder, w, h) => LinkTypeModel::YouTube(url@, folder@, *w, *h),
            LinkType::WebLink(url, folder, w, h) => LinkTypeModel::WebLink(url@, folder@, *w, *h),
        }
    }
}

/// What a matching non-fallback rule classifies the URL as: the rule's own
/// resolution tag, looked up in its family's table, decides the size, and
/// its name decides the variant. A tag absent from the table is a
/// configuration error.
pub open spec fn spec_apply_rule(url: Seq<char>, link: LinkModel) -> Result<
    LinkTypeModel,
    NoteErrorModel,
> {
    match spec_lookup_resolution(link.name, link.resolution) {
        None => Err(NoteErrorModel::ResolutionNotFound { name: link.name }),
        Some(pair) => Ok(
            if link.name == "shorts"@ {
                LinkTypeModel::Shorts(url, link.folder, pair.0, pair.1)
            } else if link.name == "youtube"@ {
                LinkTypeModel::YouTube(url, link.folder, pair.0, pair.1)
            } else {
                LinkTypeModel::WebLink(url, link.folder, pair.0, pair.1)
            },
        ),
    }
}

/// The scan from rule `i` on, with the fallback folder remembered so far.
pub open spec fn spec_classify_from(
    url: Seq<char>,
    cfg: ConfigModel,
    i: int,
    fallback: Option<Seq<char>>,
) -> Result<LinkTypeModel, NoteErrorModel>
    decreases cfg.links.len() - i,
{
    if i < 0 || i >= cfg.links.len() {
        match fallback {
            Some(folder) => Ok(LinkTypeModel::WebLink(url, folder, 0usize, 0usize)),
            None => Err(NoteErrorModel::NoMatchingRule { url }),
        }
    } else {
        let link = cfg.links[i];
        if !regex_compiles(link.regex) {
            Err(NoteErrorModel::PatternInvalid { pattern: link.regex })
        } else if regex_matches(link.regex, url) {
            if link.name == "default"@ {
                spec_classify_from(url, cfg, i + 1, Some(link.folder))
            } else {
                spec_apply_rule(url, link)
            }
        } else {
            spec_classify_from(url, cfg, i + 1, fallback)
        }
    }
}

/// What classifying a URL against the whole table yields.
pub open spec fn spec_from_url(url: Seq<char>, cfg: ConfigModel) -> Result<
    LinkTypeModel,
    NoteErrorModel,
> {
    spec_classify_from(url, cfg, 0, None)
}

impl LinkType {
    /// Classifies a URL against the configured rule table.
    pub fn from_url(url: &str, config: &Config) -> (r: Result<LinkType, NoteError>)
        ensures
            match r {
                Ok(link) => spec_from_url(url@, config@) == Ok::<LinkTypeModel, NoteErrorModel>(
                    link@,
                ),
                Err(e) => spec_from_url(url@, config@) == Err::<LinkTypeModel, NoteErrorModel>(e@),
            },
    {
        let n: usize = config.links.len();
        let mut fallback: Option<String> = None;
        let mut i: usize = 0;
        while i < n
            invariant
                n == config.links@.len(),
                i <= n,
                match fallback {
                    None => spec_classify_from(url@, config@, i as int, None) == spec_from_url(
                        url@,
                        config@,
                    ),
                    Some(folder) => spec_classify_from(url@, config@, i as int, Some(folder@))
                        == spec_from_url(url@, config@),
                },
            decreases n - i,
        {
            let link = &config.links[i];
            proof {
                assert(config@.links[i as int] == link@);
            }
            match regex_is_match(link.regex.as_str(), url) {
                None => {
                    return Err(NoteError::PatternInvalid { pattern: link.regex.clone() });
                },
                Some(true) => {
                    if str_eq(link.name.as_str(), "default") {
                        fallback = Some(link.folder.clone());
                    } else {
                        let pair = match lookup_resolution(
                            link.name.as_str(),
                            link.resolution.as_str(),
                        ) {
                            None => {
                                return Err(
                                    NoteError::ResolutionNotFound { name: link.name.clone() },
                                );
                            },
                            Some(pair) => pair,
                        };
                        let classified = if str_eq(link.name.as_str(), "shorts") {
                            LinkType::Shorts(url.to_owned(), link.folder.clone(), pair.0, pair.1)
                        } else if str_eq(link.name.as_str(), "youtube") {
                            LinkType::YouTube(url.to_owned(), link.folder.clone(), pair.0, pair.1)
                        } else {
                            LinkType::WebLink(url.to_owned(), link.folder.clone(), pair.0, pair.1)
                        };
                        return Ok(classified);
                    }
                },
                Some(false) => {},
            }
            i += 1;
        }
        match fallback {
            Some(folder) => Ok(LinkType::WebLink(url.to_owned(), folder, 0, 0)),
            None => Err(NoteError::NoMatchingRule { url: url.to_owned() }),
        }
    }
}

proof fn lemma_scan_reaches_specific(
    url: Seq<char>,
    cfg: ConfigModel,
    i: int,
    j: int,
    fallback: Option<Seq<char>>,
)
    requires
        0 <= i <= j < cfg.links.len(),
        forall|k: int| i <= k < j ==> regex_compiles(#[trigger] cfg.links[k].regex),
        forall|k: int|
            i <= k < j && regex_matches(#[trigger] cfg.links[k].regex, url) ==> cfg.links[k].name
                == "default"@,
        regex_compiles(cfg.links[j].regex),
        regex_matches(cfg.links[j].regex, url),
        cfg.links[j].name != "default"@,
    ensures
        spec_classify_from(url, cfg, i, fallback) == spec_apply_rule(url, cfg.links[j]),
    decreases j - i,
{
    if i < j {
        if regex_matches(cfg.links[i].regex, url) {
            lemma_scan_reaches_specific(url, cfg, i + 1, j, Some(cfg.links[i].folder));
        } else {
            lemma_scan_reaches_specific(url, cfg, i + 1, j, fallback);
        }
    }
}

/// A fallback rule standing before a more specific matching rule never wins:
/// when every rule before rule `j` either does not match or is the fallback,
/// a matching non-fallback rule `j` alone decides the classification —
/// whatever fallback rules were captured before it.
pub proof fn lemma_specific_rule_wins(url: Seq<char>, cfg: ConfigModel, j: int)
    requires
        0 <= j < cfg.links.len(),
        forall|k: int| 0 <= k < j ==> regex_compiles(#[trigger] cfg.links[k].regex),
        forall|k: int|
            0 <= k < j && regex_matches(#[trigger] cfg.links[k].regex, url) ==> cfg.links[k].name
                == "default"@,
        regex_compiles(cfg.links[j].regex),
        regex_matches(cfg.links[j].regex, url),
        cfg.links[j].name != "default"@,
    ensures
        spec_from_url(url, cfg) == spec_apply_rule(url, cfg.links[j]),
{
    lemma_scan_reaches_specific(url, cfg, 0, j, None);
}

proof fn lemma_scan_no_match(url: Seq<char>, cfg: ConfigModel, i: int)
    requires
        0 <= i <= cfg.links.len(),
        forall|k: int|
            i <= k < cfg.links.len() ==> regex_compiles(#[trigger] cfg.links[k].regex)
                && !regex_matches(cfg.links[k].regex, url),
    ensures
        spec_classify_from(url, cfg, i, None) == Err::<LinkTypeModel, NoteErrorModel>(
            NoteErrorModel::NoMatchingRule { url },
        ),
    decreases cfg.links.len() - i,
{
    if i < cfg.links.len() {
        lemma_scan_no_match(url, cfg, i + 1);
    }
}

/// When no rule of the table matches the URL, classification fails with the
/// no-matching-rule error — in particular when the table has no fallback
/// rule at all.
pub proof fn lemma_no_match_fails(url: Seq<char>, cfg: ConfigModel)
    requires
        forall|k: int|
            0 <= k < cfg.links.len() ==> regex_compiles(#[trigger] cfg.links[k].regex)
                && !regex_matches(cfg.links[k].regex, url),
    ensures
        spec_from_url(url, cfg) == Err::<LinkTypeModel, NoteErrorModel>(
            NoteErrorModel::NoMatchingRule { url },
        ),
{
    lemma_scan_no_match(url, cfg, 0);
}

} // verus!
