//! The embed renderer: one HTML iframe fragment for a video identifier and
//! a resolution.

use vstd::prelude::*;
use vstd::string::StringExecFns;

use crate::text::{spec_decimal, usize_to_string};

verus! {

/// The embed fragment: an iframe of the given size around the canonical
/// embed address of the video, with fullscreen allowed.
pub open spec fn spec_embed_code(video_id: Seq<char>, width: usize, height: usize) -> Seq<char> {
    "<iframe width=\""@ + spec_decimal(width as nat) + "\" height=\""@ + spec_decimal(
        height as nat,
    ) + "\" src=\"https://www.youtube.com/embed/"@ + video_id
        + "\" frameborder=\"0\" allowfullscreen></iframe>"@
}

/// Renders the embed fragment for a video at the given size.
pub fn generate_embed_code(video_id: &str, width: usize, height: usize) -> (r: String)
    ensures
        r@ == spec_embed_code(video_id@, width, height),
{
    let mut out = String::new();
    out.append("<iframe width=\"");
    let w = usize_to_string(width);
    out.append(w.as_str());
    out.append("\" height=\"");
    let h = usize_to_string(height);
    out.append(h.as_str());
    out.append("\" src=\"https://www.youtube.com/embed/");
    out.append(video_id);
    out.append("\" frameborder=\"0\" allowfullscreen></iframe>");
    proof {
        assert(out@ =~= spec_embed_code(video_id@, width, height));
    }
    out
}

} // verus!
