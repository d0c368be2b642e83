//! Turns a single URL into a markdown note for a personal knowledge vault:
//! an ordered rule table classifies the URL, resolution tables size the video
//! embed, and a rendering pipeline produces the note byte for byte.

pub mod classify;
pub mod clock;
pub mod config;
pub mod embed;
pub mod errors;
pub mod frontmatter;
pub mod note;
pub mod pattern;
pub mod resolution;
pub mod text;
pub mod video;
