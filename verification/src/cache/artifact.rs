//! Artifacts of CI runs as entries of the cache.

use crate::source::RepoContext;
use crate::text::same_text;
use vstd::prelude::*;
use vstd::string::*;

verus! {

/// What identifies an artifact of a CI run: the repository and the
/// provider's identifier of the artifact.
#[derive(Debug)]
pub struct Key {
    pub repository: RepoContext,
    pub artifact_id: u64,
}

/// A key as plain values.
pub struct KeyView {
    pub owner: Seq<char>,
    pub name: Seq<char>,
    pub artifact_id: u64,
}

impl View for Key {
    type V = KeyView;

    open spec fn view(&self) -> KeyView {
        KeyView {
            owner: self.repository.owner@,
            name: self.repository.name@,
            artifact_id: self.artifact_id,
        }
    }
}

impl Clone for Key {
    fn clone(&self) -> (copy: Self)
        ensures
            copy == *self,
    {
        Key { repository: self.repository.clone(), artifact_id: self.artifact_id }
    }
}

impl Key {
    /// Whether two keys identify the same artifact.
    pub fn same_as(&self, other: &Key) -> (same: bool)
        ensures
            same == (self@ == other@),
    {
        self.artifact_id == other.artifact_id && same_text(
            self.repository.owner.as_str(),
            other.repository.owner.as_str(),
        ) && same_text(self.repository.name.as_str(), other.repository.name.as_str())
    }
}

/// An artifact of a CI run that is kept in the cache, downloaded and
/// unpacked.
#[derive(Debug)]
pub struct ExtractedArtifact {
    pub key: Key,
}

/// What generating the entry of an artifact takes: the artifact is
/// downloaded from the repository and unpacked into the store.
#[derive(Debug)]
pub struct Download {
    pub repository: RepoContext,
    pub artifact_id: u64,
    pub store: String,
}

impl ExtractedArtifact {
    /// The artifact of a CI run with the given identifier.
    pub fn new(repository: RepoContext, artifact_id: u64) -> (artifact: Self)
        ensures
            artifact.key.repository == repository,
            artifact.key.artifact_id == artifact_id,
    {
        ExtractedArtifact { key: Key { repository, artifact_id } }
    }

    /// What is to be done to generate the entry in the directory `store`.
    pub fn generate(&self, store: String) -> (download: Download)
        ensures
            download.repository == self.key.repository,
            download.artifact_id == self.key.artifact_id,
            download.store == store,
    {
        Download {
            repository: self.key.repository.clone(),
            artifact_id: self.key.artifact_id,
            store,
        }
    }
}

/// What is stored in the cache: it has a key, and its stored form is
/// adapted to what callers get.
pub trait Storable {
    /// What is written beside a generated entry.
    type Metadata;

    /// What callers get.
    type Output;

    /// The key under which the entry is stored, as plain values.
    spec fn key_view(&self) -> KeyView;

    /// The output for an entry at `location` with `metadata`.
    spec fn adapted(
        &self,
        location: Seq<char>,
        metadata: Self::Metadata,
        output: Self::Output,
    ) -> bool;

    /// The key under which the entry is stored.
    fn key(&self) -> (key: &Key)
        ensures
            key@ == self.key_view(),
    ;

    /// Adapts a stored entry. This only reads its arguments.
    fn adapt(&self, location: String, metadata: Self::Metadata) -> (output: Self::Output)
        ensures
            self.adapted(location@, metadata, output),
    ;
}

impl Storable for ExtractedArtifact {
    type Metadata = ();

    type Output = String;

    open spec fn key_view(&self) -> KeyView {
        self.key@
    }

    /// The output is the directory of the entry.
    open spec fn adapted(&self, location: Seq<char>, metadata: (), output: String) -> bool {
        output@ == location
    }

    fn key(&self) -> (key: &Key) {
        &self.key
    }

    fn adapt(&self, location: String, metadata: ()) -> (output: String) {
        location
    }
}

} // verus!
