//! Run configuration: which sources to read, how tokens are collected per
//! file extension, and where the stylesheet goes. The collection-option
//! overrides are kept as an ordered key/option list with a first-match
//! lookup.

use vstd::prelude::*;
use crate::strutil::str_eq;

verus! {

/// How class tokens are collected from a source file.
#[derive(Debug, Clone, Copy, PartialEq, Eq, Structural)]
pub enum CollectionOptions {
    /// Collect from markup attributes.
    Html,
    /// Collect from plain text.
    Plain,
}

/// The collection option a file extension selects when no override applies.
pub open spec fn spec_collection_option(ext: Seq<char>) -> CollectionOptions {
    if ext == "html"@ {
        CollectionOptions::Html
    } else {
        CollectionOptions::Plain
    }
}

/// The first override for `ext`, if any.
pub open spec fn spec_override(
    overrides: Seq<(String, CollectionOptions)>,
    ext: Seq<char>,
) -> Option<CollectionOptions>
    decreases overrides.len(),
{
    if overrides.len() == 0 {
        None
    } else if overrides[0].0@ == ext {
        Some(overrides[0].1)
    } else {
        spec_override(overrides.drop_first(), ext)
    }
}

impl CollectionOptions {
    /// The option for a file extension: `html` collects from markup,
    /// anything else from plain text.
    pub fn new(ext: &str) -> (r: CollectionOptions)
        ensures
            r == spec_collection_option(ext@),
    {
        if str_eq(ext, "html") {
            CollectionOptions::Html
        } else {
            CollectionOptions::Plain
        }
    }

    /// The option for a file extension under the given overrides: the first
    /// override for the extension wins, else the default choice applies.
    pub fn new_expand(ext: &str, overrides: &Vec<(String, CollectionOptions)>) -> (r:
        CollectionOptions)
        ensures
            r == (match spec_override(overrides@, ext@) {
                Some(o) => o,
                None => spec_collection_option(ext@),
            }),
    {
        let n = overrides.len();
        let mut i: usize = 0;
        proof {
            assert(overrides@.skip(0) =~= overrides@);
        }
        while i < n
            invariant
                i <= n,
                n == overrides@.len(),
                spec_override(overrides@, ext@) == spec_override(
                    overrides@.skip(i as int),
                    ext@,
                ),
            decreases n - i,
        {
            proof {
                assert(overrides@.skip(i as int)[0] == overrides@[i as int]);
                assert(overrides@.skip(i as int).drop_first() =~= overrides@.skip(i + 1));
            }
            if str_eq(overrides[i].0.as_str(), ext) {
                return overrides[i].1;
            }
            i += 1;
        }
        CollectionOptions::new(ext)
    }
}

/// The run configuration: source patterns, optional per-extension collection
/// overrides, and the output path.
#[derive(Debug)]
pub struct Config {
    pub content: Vec<String>,
    pub extend_collection_options: Option<Vec<(String, CollectionOptions)>>,
    pub output: String,
}

impl Default for Config {
    /// The default run: collect from `index.html`, no overrides, write
    /// `railwind.css`.
    fn default() -> (c: Config)
        ensures
            c.content.deep_view() == seq!["index.html"@],
            c.extend_collection_options is None,
            c.output@ == "railwind.css"@,
    {
        let mut content: Vec<String> = Vec::new();
        content.push("index.html".to_owned());
        proof {
            assert(content.deep_view() =~= seq!["index.html"@]);
        }
        Config { content, extend_collection_options: None, output: "railwind.css".to_owned() }
    }
}

} // verus!
