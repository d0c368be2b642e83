//! The configuration the pipeline runs against: the vault root, the
//! frontmatter overrides, and the ordered rule table.

use vstd::prelude::*;

verus! {

/// One classification rule: a handler family name, a matching pattern, a key
/// into the resolution table of that family, and a destination folder.
pub struct Link {
    pub name: String,
    pub regex: String,
    pub resolution: String,
    pub folder: String,
}

/// The mathematical image of a `Link`.
pub struct LinkModel {
    pub name: Seq<char>,
    pub regex: Seq<char>,
    pub resolution: Seq<char>,
    pub folder: Seq<char>,
}

impl View for Link {
    type V = LinkModel;

    open spec fn view(&self) -> LinkModel {
        LinkModel {
            name: self.name@,
            regex: self.regex@,
            resolution: self.resolution@,
            folder: self.folder@,
        }
    }
}

/// Frontmatter overrides: each field, when present, wins over the computed
/// or fetched value of the same field.
pub struct Frontmatter {
    pub date: Option<String>,
    pub day: Option<String>,
    pub time: Option<String>,
    pub tags: Option<Vec<String>>,
    pub url: Option<String>,
    pub author: Option<String>,
}

/// The mathematical image of a `Frontmatter`.
pub struct FrontmatterModel {
    pub date: Option<Seq<char>>,
    pub day: Option<Seq<char>>,
    pub time: Option<Seq<char>>,
    pub tags: Option<Seq<Seq<char>>>,
    pub url: Option<Seq<char>>,
    pub author: Option<Seq<char>>,
}

impl View for Frontmatter {
    type V = FrontmatterModel;

    open spec fn view(&self) -> FrontmatterModel {
        FrontmatterModel {
            date: self.date.deep_view(),
            day: self.day.deep_view(),
            time: self.time.deep_view(),
            tags: self.tags.deep_view(),
            url: self.url.deep_view(),
            author: self.author.deep_view(),
        }
    }
}

/// The whole configuration of one invocation.
pub struct Config {
    pub vault: String,
    pub frontmatter: Frontmatter,
    pub links: Vec<Link>,
}

/// The mathematical image of a `Config`.
pub struct ConfigModel {
    pub vault: Seq<char>,
    pub frontmatter: FrontmatterModel,
    pub links: Seq<LinkModel>,
}

impl View for Config {
    type V = ConfigModel;

    open spec fn view(&self) -> ConfigModel {
        ConfigModel {
            vault: self.vault@,
            frontmatter: self.frontmatter@,
            links: self.links@.map_values(|l: Link| l@),
        }
    }
}

} // verus!
