//! What the artifact store tells of artifacts and of what they hold.

use vstd::prelude::*;
use vstd::string::*;

verus! {

/// The version of the store's interface that requests ask for.
pub const API_VERSION: &'static str = "6.0-preview";

/// An artifact of a run, as the store lists it.
#[derive(Debug)]
pub struct ArtifactResponse {
    pub container_id: u64,
    pub size: i64,
    pub file_container_resource_url: String,
    pub name: String,
    pub url: String,
}

impl Clone for ArtifactResponse {
    fn clone(&self) -> (copy: Self)
        ensures
            copy == *self,
    {
        ArtifactResponse {
            container_id: self.container_id,
            size: self.size,
            file_container_resource_url: self.file_container_resource_url.clone(),
            name: self.name.clone(),
            url: self.url.clone(),
        }
    }
}

/// What an item of a container is.
#[derive(Debug, Clone, Copy, PartialEq, Eq, Structural)]
pub enum ItemType {
    File,
    Folder,
}

/// An item of the container of an artifact.
#[derive(Debug)]
pub struct ContainerEntry {
    pub container_id: u64,
    /// The place of the item in the container, with `/` between its
    /// segments. Its first segment is the name of the artifact.
    pub path: String,
    pub item_type: ItemType,
    /// Where the content of the item is downloaded from.
    pub content_location: String,
}

impl Clone for ContainerEntry {
    fn clone(&self) -> (copy: Self)
        ensures
            copy == *self,
    {
        ContainerEntry {
            container_id: self.container_id,
            path: self.path.clone(),
            item_type: self.item_type,
            content_location: self.content_location.clone(),
        }
    }
}

/// The position of the first `/` in a text, or the length of the text
/// where there is none.
pub open spec fn first_slash(path: Seq<char>) -> int
    decreases path.len(),
{
    if path.len() == 0 {
        0
    } else if path[0] == '/' {
        0
    } else {
        1 + first_slash(path.drop_first())
    }
}

/// The first slash lies in the text or at its end, and no slash comes
/// before it.
pub proof fn lemma_first_slash(path: Seq<char>)
    ensures
        0 <= first_slash(path) <= path.len(),
        forall|i: int| 0 <= i < first_slash(path) ==> path[i] != '/',
        first_slash(path) < path.len() ==> path[first_slash(path)] == '/',
    decreases path.len(),
{
    if path.len() > 0 && path[0] != '/' {
        lemma_first_slash(path.drop_first());
        assert forall|i: int| 0 <= i < first_slash(path) implies path[i] != '/' by {
            if i > 0 {
                assert(path.drop_first()[i - 1] == path[i]);
            }
        }
    }
}

/// A path without its first segment: what follows the first `/`, or
/// nothing where the path has only one segment.
pub open spec fn without_first_segment(path: Seq<char>) -> Seq<char> {
    if first_slash(path) < path.len() {
        path.subrange(first_slash(path) + 1, path.len() as int)
    } else {
        Seq::empty()
    }
}

impl ContainerEntry {
    /// The place of the item relative to the artifact: its path without
    /// the leading segment, which names the artifact.
    pub fn relative_path(&self) -> (relative: String)
        ensures
            relative@ == without_first_segment(self.path@),
    {
        let path = self.path.as_str();
        let n = path.unicode_len();
        let mut i: usize = 0;
        proof {
            lemma_first_slash(path@);
        }
        while i < n && path.get_char(i) != '/'
            invariant
                n == path@.len(),
                i <= n,
                i <= first_slash(path@),
                forall|j: int| 0 <= j < first_slash(path@) ==> path@[j] != '/',
                first_slash(path@) < path@.len() ==> path@[first_slash(path@)] == '/',
                first_slash(path@) <= path@.len(),
            decreases n - i,
        {
            i += 1;
        }
        if i < n {
            String::from_str(path.substring_char(i + 1, n))
        } else {
            String::new()
        }
    }
}

} // verus!
