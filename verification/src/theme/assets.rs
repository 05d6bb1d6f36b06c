//! The files that are built into the program, by path.

use vstd::prelude::*;
use vstd::string::*;

verus! {

/// Whether `text` starts with `prefix`, byte for byte in their UTF-8
/// encoding.
pub open spec fn starts_with(text: Seq<char>, prefix: Seq<char>) -> bool {
    vstd::utf8::encode_utf8(prefix).is_prefix_of(vstd::utf8::encode_utf8(text))
}

/// The paths among `paths` that start with `prefix`, in their order.
pub open spec fn listed(paths: Seq<String>, prefix: Seq<char>) -> Seq<Seq<char>>
    decreases paths.len(),
{
    if paths.len() == 0 {
        Seq::empty()
    } else if starts_with(paths.last()@, prefix) {
        listed(paths.drop_last(), prefix).push(paths.last()@)
    } else {
        listed(paths.drop_last(), prefix)
    }
}

/// The path of the file that holds the legacy theme `name`.
pub open spec fn theme_path_of(name: Seq<char>) -> Seq<char> {
    "themes/"@ + name + ".json"@
}

/// The views of `paths`, one for one.
pub open spec fn path_views(paths: Seq<String>) -> Seq<Seq<char>> {
    paths.map_values(|path: String| path@)
}

fn has_prefix(text: &str, prefix: &str) -> (found: bool)
    ensures
        found == starts_with(text@, prefix@),
{
    let text_bytes = text.as_bytes();
    let prefix_bytes = prefix.as_bytes();
    if prefix_bytes.len() > text_bytes.len() {
        return false;
    }
    let mut i: usize = 0;
    while i < prefix_bytes.len()
        invariant
            i <= prefix_bytes.len() <= text_bytes.len(),
            prefix_bytes@ == vstd::utf8::encode_utf8(prefix@),
            text_bytes@ == vstd::utf8::encode_utf8(text@),
            forall|j: int| 0 <= j < i ==> prefix_bytes@[j] == text_bytes@[j],
        decreases prefix_bytes.len() - i,
    {
        if prefix_bytes[i] != text_bytes[i] {
            return false;
        }
        i += 1;
    }
    true
}

/// The catalogue of built-in files.
#[derive(Debug, Clone, PartialEq, Eq)]
pub struct Assets {
    paths: Vec<String>,
}

impl Assets {
    /// The paths of all files, in the order of the catalogue.
    pub closed spec fn spec_paths(self) -> Seq<String> {
        self.paths@
    }

    /// The catalogue of the files at `paths`.
    pub fn new(paths: Vec<String>) -> (assets: Self)
        ensures
            assets.spec_paths() == paths@,
    {
        Assets { paths }
    }

    /// The paths of the files below `path`: those that start with it, in the
    /// order of the catalogue.
    pub fn list(&self, path: &str) -> (found: Vec<String>)
        ensures
            path_views(found@) == listed(self.spec_paths(), path@),
    {
        let mut found: Vec<String> = Vec::new();
        let mut i: usize = 0;
        while i < self.paths.len()
            invariant
                i <= self.paths.len(),
                path_views(found@) == listed(self.paths@.take(i as int), path@),
            decreases self.paths.len() - i,
        {
            proof {
                assert(self.paths@.take(i + 1).drop_last() =~= self.paths@.take(i as int));
            }
            if has_prefix(self.paths[i].as_str(), path) {
                found.push(self.paths[i].clone());
            }
            i += 1;
        }
        assert(self.paths@.take(i as int) =~= self.paths@);
        found
    }

    /// The path of the file that holds the legacy theme `name`.
    pub fn theme_path(name: &str) -> (path: String)
        ensures
            path@ == theme_path_of(name@),
    {
        let mut path = "themes/".to_owned();
        path.append(name);
        path.append(".json");
        path
    }
}

} // verus!
