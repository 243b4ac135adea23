//! Which changed paths are relevant enough to rebuild and relaunch.
use vstd::prelude::*;
use crate::text::{ends_with, has_suffix};

verus! {

/// The suffixes of relevant files: Rust sources, TOML manifests, Tera and
/// Handlebars templates, HTML markup and JavaScript.
pub open spec fn whitelist() -> Seq<Seq<char>> {
    seq![".rs"@, ".toml"@, ".tera"@, ".hbs"@, ".html"@, ".js"@]
}

/// `path` ends with one of the whitelisted suffixes.
pub open spec fn whitelisted(path: Seq<char>) -> bool {
    exists|i: int| 0 <= i < whitelist().len() && has_suffix(path, #[trigger] whitelist()[i])
}

/// Returns whether the text of a path ends with a whitelisted suffix. A path
/// whose text could not be read is passed as the empty string, which matches
/// no suffix.
pub fn is_whitelisted(path: &str) -> (r: bool)
    ensures
        r == whitelisted(path@),
{
    let ghost w = whitelist();
    assert(w[0] == ".rs"@ && w[1] == ".toml"@ && w[2] == ".tera"@);
    assert(w[3] == ".hbs"@ && w[4] == ".html"@ && w[5] == ".js"@);
    let r = ends_with(path, ".rs") || ends_with(path, ".toml") || ends_with(path, ".tera")
        || ends_with(path, ".hbs") || ends_with(path, ".html") || ends_with(path, ".js");
    proof {
        if r {
            if has_suffix(path@, ".rs"@) {
                assert(has_suffix(path@, w[0]));
            } else if has_suffix(path@, ".toml"@) {
                assert(has_suffix(path@, w[1]));
            } else if has_suffix(path@, ".tera"@) {
                assert(has_suffix(path@, w[2]));
            } else if has_suffix(path@, ".hbs"@) {
                assert(has_suffix(path@, w[3]));
            } else if has_suffix(path@, ".html"@) {
                assert(has_suffix(path@, w[4]));
            } else {
                assert(has_suffix(path@, w[5]));
            }
        }
    }
    r
}

} // verus!
