//! The two immutable resolution tables and the lookup that rules go through.
//!
//! The standard table sizes ordinary video embeds, the vertical table sizes
//! short-form embeds. A lookup miss is a configuration error, never a silent
//! zero-by-zero fallback: that pair is reserved for the generic web-link
//! path.

use vstd::prelude::*;

use crate::config::Config;
use crate::errors::NoteError;
use crate::text::str_eq;
use vstd::string::StringExecFns;

verus! {

/// The standard table: tag to (width, height) for ordinary video embeds.
pub open spec fn spec_standard_resolution(key: Seq<char>) -> Option<(usize, usize)> {
    if key == "nHD"@ {
        Some((640usize, 360usize))
    } else if key == "FWVGA"@ {
        Some((854usize, 480usize))
    } else if key == "qHD"@ {
        Some((960usize, 540usize))
    } else if key == "SD"@ {
        Some((1280usize, 720usize))
    } else if key == "WXGA"@ {
        Some((1366usize, 768usize))
    } else if key == "HD+"@ {
        Some((1600usize, 900usize))
    } else if key == "FHD"@ {
        Some((1920usize, 1080usize))
    } else if key == "WQHD"@ {
        Some((2560usize, 1440usize))
    } else if key == "QHD+"@ {
        Some((3200usize, 1800usize))
    } else if key == "4K"@ {
        Some((3840usize, 2160usize))
    } else if key == "5K"@ {
        Some((5120usize, 2880usize))
    } else if key == "8K"@ {
        Some((7680usize, 4320usize))
    } else if key == "16K"@ {
        Some((15360usize, 8640usize))
    } else {
        None
    }
}

/// The vertical table: tag to (width, height) for short-form embeds.
pub open spec fn spec_shorts_resolution(key: Seq<char>) -> Option<(usize, usize)> {
    if key == "480p"@ {
        Some((480usize, 854usize))
    } else if key == "720p"@ {
        Some((720usize, 1280usize))
    } else if key == "1080p"@ {
        Some((1080usize, 1920usize))
    } else if key == "1440p"@ {
        Some((1440usize, 2560usize))
    } else if key == "2160p"@ {
        Some((2160usize, 3840usize))
    } else {
        None
    }
}

/// Looks a tag up in the standard table.
pub fn standard_resolution(key: &str) -> (r: Option<(usize, usize)>)
    ensures
        r == spec_standard_resolution(key@),
{
    if str_eq(key, "nHD") {
        Some((640, 360))
    } else if str_eq(key, "FWVGA") {
        Some((854, 480))
    } else if str_eq(key, "qHD") {
        Some((960, 540))
    } else if str_eq(key, "SD") {
        Some((1280, 720))
    } else if str_eq(key, "WXGA") {
        Some((1366, 768))
    } else if str_eq(key, "HD+") {
        Some((1600, 900))
    } else if str_eq(key, "FHD") {
        Some((1920, 1080))
    } else if str_eq(key, "WQHD") {
        Some((2560, 1440))
    } else if str_eq(key, "QHD+") {
        Some((3200, 1800))
    } else if str_eq(key, "4K") {
        Some((3840, 2160))
    } else if str_eq(key, "5K") {
        Some((5120, 2880))
    } else if str_eq(key, "8K") {
        Some((7680, 4320))
    } else if str_eq(key, "16K") {
        Some((15360, 8640))
    } else {
        None
    }
}

/// Looks a tag up in the vertical table.
pub fn shorts_resolution(key: &str) -> (r: Option<(usize, usize)>)
    ensures
        r == spec_shorts_resolution(key@),
{
    if str_eq(key, "480p") {
        Some((480, 854))
    } else if str_eq(key, "720p") {
        Some((720, 1280))
    } else if str_eq(key, "1080p") {
        Some((1080, 1920))
    } else if str_eq(key, "1440p") {
        Some((1440, 2560))
    } else if str_eq(key, "2160p") {
        Some((2160, 3840))
    } else {
        None
    }
}

/// The table a rule family uses: the vertical table exactly for the
/// `shorts` family, the standard table for every other family.
pub open spec fn spec_lookup_resolution(name: Seq<char>, key: Seq<char>) -> Option<
    (usize, usize),
> {
    if name == "shorts"@ {
        spec_shorts_resolution(key)
    } else {
        spec_standard_resolution(key)
    }
}

/// Looks a tag up in the table that the given rule family uses.
pub fn lookup_resolution(name: &str, key: &str) -> (r: Option<(usize, usize)>)
    ensures
        r == spec_lookup_resolution(name@, key@),
{
    if str_eq(name, "shorts") {
        shorts_resolution(key)
    } else {
        standard_resolution(key)
    }
}

/// The first rule of the table that bears the given name, if any.
pub open spec fn spec_find_link(links: Seq<crate::config::LinkModel>, name: Seq<char>) -> Option<
    crate::config::LinkModel,
>
    decreases links.len(),
{
    if links.len() == 0 {
        None
    } else if links[0].name == name {
        Some(links[0])
    } else {
        spec_find_link(links.drop_first(), name)
    }
}

/// What resolving a rule name against the configuration yields: the first
/// rule of that name contributes its resolution tag, which is looked up in
/// the vertical table exactly for the `shorts` family and in the standard
/// table for every other family.
pub open spec fn spec_get_resolution(cfg: crate::config::ConfigModel, name: Seq<char>) -> Result<
    (usize, usize),
    crate::errors::NoteErrorModel,
> {
    match spec_find_link(cfg.links, name) {
        None => Err(crate::errors::NoteErrorModel::RuleNotFound { name }),
        Some(link) => match spec_lookup_resolution(name, link.resolution) {
            Some(pair) => Ok(pair),
            None => Err(crate::errors::NoteErrorModel::ResolutionNotFound { name }),
        },
    }
}

/// Resolves a rule name to the (width, height) its resolution tag denotes.
pub fn get_resolution(link_name: &str, config: &Config) -> (r: Result<(usize, usize), NoteError>)
    ensures
        match r {
            Ok(pair) => spec_get_resolution(config@, link_name@) == Ok::<
                (usize, usize),
                crate::errors::NoteErrorModel,
            >(pair),
            Err(e) => spec_get_resolution(config@, link_name@) == Err::<
                (usize, usize),
                crate::errors::NoteErrorModel,
            >(e@),
        },
{
    let n: usize = config.links.len();
    let mut i: usize = 0;
    proof {
        assert(config@.links.skip(0) =~= config@.links);
    }
    while i < n
        invariant
            n == config.links@.len(),
            i <= n,
            spec_find_link(config@.links, link_name@) == spec_find_link(
                config@.links.skip(i as int),
                link_name@,
            ),
        decreases n - i,
    {
        let link = &config.links[i];
        proof {
            assert(config@.links.skip(i as int).drop_first() =~= config@.links.skip(i + 1));
            assert(config@.links.skip(i as int)[0] == config@.links[i as int]);
        }
        if str_eq(link.name.as_str(), link_name) {
            let looked = lookup_resolution(link_name, link.resolution.as_str());
            return match looked {
                Some(pair) => Ok(pair),
                None => Err(NoteError::ResolutionNotFound { name: String::from_str(link_name) }),
            };
        }
        i += 1;
    }
    proof {
        assert(config@.links.skip(n as int) =~= Seq::<crate::config::LinkModel>::empty());
    }
    Err(NoteError::RuleNotFound { name: String::from_str(link_name) })
}

} // verus!
