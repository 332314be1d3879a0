//! Locations in the file system, written as texts with `/` between their
//! segments, and the layout of a repository's working copy.

use crate::platform::OS;
use crate::platform::os_name;
use crate::text::concat2;
use crate::text::concat3;
use crate::text::ends_with;
use crate::text::is_prefix_of;
use crate::text::is_suffix_of;
use crate::text::starts_with;
use crate::version::Versions;
use vstd::prelude::*;
use vstd::string::*;

verus! {

/// The location of `child` under `base`. A `child` that starts at the root
/// stands for itself, and so does one under an empty `base`.
pub open spec fn joined(base: Seq<char>, child: Seq<char>) -> Seq<char> {
    if base.len() == 0 || is_prefix_of("/"@, child) {
        child
    } else if is_suffix_of("/"@, base) {
        base + child
    } else {
        base + "/"@ + child
    }
}

/// Writes the location of `child` under `base`.
pub fn join(base: &str, child: &str) -> (path: String)
    ensures
        path@ == joined(base@, child@),
{
    if base.unicode_len() == 0 || starts_with(child, "/") {
        String::from_str(child)
    } else if ends_with(base, "/") {
        concat2(base, child)
    } else {
        concat3(base, "/", child)
    }
}

/// The position of the last `wanted` in `text`, or -1 where there is none.
pub open spec fn last_position(text: Seq<char>, wanted: char) -> int
    decreases text.len(),
{
    if text.len() == 0 {
        -1
    } else if text.last() == wanted {
        text.len() - 1
    } else {
        last_position(text.drop_last(), wanted)
    }
}

/// Finds the last `wanted` in `text`.
pub fn find_last(text: &str, wanted: char) -> (position: Option<usize>)
    ensures
        match position {
            Some(at) => at == last_position(text@, wanted),
            None => last_position(text@, wanted) == -1,
        },
{
    let n = text.unicode_len();
    let mut end: usize = n;
    assert(text@.subrange(0, n as int) =~= text@);
    while end > 0
        invariant
            end <= n,
            n == text@.len(),
            last_position(text@, wanted) == last_position(text@.subrange(0, end as int), wanted),
        decreases end,
    {
        let ghost head = text@.subrange(0, end as int);
        assert(head.last() == text@[end - 1]);
        if text.get_char(end - 1) == wanted {
            return Some(end - 1);
        }
        assert(head.drop_last() =~= text@.subrange(0, end - 1));
        end -= 1;
    }
    None
}

/// Where the extension of a path begins: at the last dot of its last
/// segment, unless that dot opens the segment; at the end where the last
/// segment has no such dot.
pub open spec fn extension_start(path: Seq<char>) -> int {
    let slash = last_position(path, '/');
    let dot = last_position(path, '.');
    if dot > slash + 1 {
        dot
    } else {
        path.len() as int
    }
}

/// The path with its extension replaced by `extension`.
pub open spec fn extension_replaced(path: Seq<char>, extension: Seq<char>) -> Seq<char> {
    path.subrange(0, extension_start(path)) + "."@ + extension
}

/// The last position of a character lies inside the text.
pub proof fn lemma_last_position_bounds(text: Seq<char>, wanted: char)
    ensures
        -1 <= last_position(text, wanted) < text.len(),
    decreases text.len(),
{
    if text.len() > 0 && text.last() != wanted {
        lemma_last_position_bounds(text.drop_last(), wanted);
    }
}

/// Replaces the extension of a path.
pub fn with_extension(path: &str, extension: &str) -> (replaced: String)
    ensures
        replaced@ == extension_replaced(path@, extension@),
{
    let n = path.unicode_len();
    let slash = find_last(path, '/');
    let dot = find_last(path, '.');
    proof {
        lemma_last_position_bounds(path@, '/');
        lemma_last_position_bounds(path@, '.');
    }
    let start = match dot {
        None => n,
        Some(dot) => match slash {
            None => if dot > 0 {
                dot
            } else {
                n
            },
            Some(slash) => if dot > slash + 1 {
                dot
            } else {
                n
            },
        },
    };
    let stem = path.substring_char(0, start);
    concat3(stem, ".", extension)
}

/// What is being built, for which system.
#[derive(Debug)]
pub struct TargetTriple {
    /// The operating system that the artifacts are for.
    pub os: OS,
    /// The versions that the artifacts carry.
    pub versions: Versions,
}

impl Clone for TargetTriple {
    fn clone(&self) -> (copy: Self)
        ensures
            copy == *self,
    {
        TargetTriple { os: self.os, versions: self.versions.clone() }
    }
}

impl TargetTriple {
    /// The triple for building `versions` for `os`.
    pub fn new(os: OS, versions: Versions) -> (triple: Self)
        ensures
            triple.os == os,
            triple.versions == versions,
    {
        TargetTriple { os, versions }
    }

    /// The text that names the triple: the version, a hyphen and the name
    /// of the operating system.
    pub open spec fn text(&self) -> Seq<char> {
        self.versions.version.text() + "-"@ + os_name(self.os)
    }

    /// Writes the text that names the triple.
    pub fn to_string(&self) -> (text: String)
        ensures
            text@ == self.text(),
    {
        concat3(self.versions.version.to_string().as_str(), "-", self.os.name().as_str())
    }
}

/// The root of a repository's working copy, with the triple that names the
/// build directories under it.
#[derive(Debug)]
pub struct RepoRoot {
    /// Location of the working copy.
    pub path: String,
    /// Text of the target triple.
    pub triple: String,
}

impl Clone for RepoRoot {
    fn clone(&self) -> (copy: Self)
        ensures
            copy == *self,
    {
        RepoRoot { path: self.path.clone(), triple: self.triple.clone() }
    }
}

impl RepoRoot {
    /// The layout under `path` for the build named by `triple`.
    pub fn new(path: &str, triple: &str) -> (root: Self)
        ensures
            root.path@ == path@,
            root.triple@ == triple@,
    {
        RepoRoot { path: String::from_str(path), triple: String::from_str(triple) }
    }

    /// Where the sources of the desktop client live.
    pub fn ide_desktop(&self) -> (path: String)
        ensures
            path@ == joined(self.path@, "app/ide-desktop"@),
    {
        join(self.path.as_str(), "app/ide-desktop")
    }

    /// Where the engine distribution for the triple is assembled.
    pub fn built_distribution(&self) -> (path: String)
        ensures
            path@ == joined(joined(self.path@, "built-distribution"@), self.triple@),
    {
        join(join(self.path.as_str(), "built-distribution").as_str(), self.triple.as_str())
    }
}

} // verus!
