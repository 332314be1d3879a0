//! Downloading an artifact: which of its items go where.

use crate::actions::artifacts::models::ArtifactResponse;
use crate::actions::artifacts::models::ContainerEntry;
use crate::actions::artifacts::models::ItemType;
use crate::actions::artifacts::models::without_first_segment;
use crate::lists::lemma_filter_push;
use crate::paths::join;
use crate::paths::joined;
use crate::text::concat3;
use crate::text::same_text;
use vstd::prelude::*;
use vstd::string::*;

verus! {

/// Why a download could not be set up.
#[derive(Debug, Clone, Copy, PartialEq, Eq, Structural)]
pub enum DownloadError {
    /// The run has no artifact of the wanted name.
    ArtifactNotFound,
}

/// What is needed to download an artifact: what the store tells of it, and
/// the items of its container.
#[derive(Debug)]
pub struct ArtifactDownloader {
    pub artifact_name: String,
    pub info: ArtifactResponse,
    pub items: Vec<ContainerEntry>,
}

/// A file of an artifact that is to be downloaded.
#[derive(Debug)]
pub struct FileToDownload {
    /// Absolute path in the local filesystem.
    pub target: String,
    /// Where the content is fetched from.
    pub remote_source_location: String,
}

impl Clone for FileToDownload {
    fn clone(&self) -> (copy: Self)
        ensures
            copy == *self,
    {
        FileToDownload {
            target: self.target.clone(),
            remote_source_location: self.remote_source_location.clone(),
        }
    }
}

impl FileToDownload {
    /// The download of an item of a container to its place under
    /// `target_root`.
    pub fn new_to_subtree(target_root: &str, entry: &ContainerEntry) -> (file: Result<Self, ()>)
        ensures
            file matches Ok(file) && file.target@ == joined(
                target_root@,
                without_first_segment(entry.path@),
            ) && file.remote_source_location == entry.content_location,
    {
        Ok(Self::to_subtree(target_root, entry))
    }

    /// The download of an item to its place under `target_root`.
    fn to_subtree(target_root: &str, entry: &ContainerEntry) -> (file: Self)
        ensures
            file.target@ == joined(target_root@, without_first_segment(entry.path@)),
            file.remote_source_location == entry.content_location,
    {
        FileToDownload {
            target: join(target_root, entry.relative_path().as_str()),
            remote_source_location: entry.content_location.clone(),
        }
    }
}

/// One step of the download of an artifact.
#[derive(Debug)]
pub enum DownloadStep {
    /// Download a file.
    File(FileToDownload),
    /// Make a directory with the directories above it.
    Folder(String),
}

/// The step that an item of a container asks for when the artifact goes
/// under `root`.
pub open spec fn step_for(root: Seq<char>, entry: ContainerEntry, step: DownloadStep) -> bool {
    let place = joined(root, without_first_segment(entry.path@));
    match entry.item_type {
        ItemType::File => step matches DownloadStep::File(file) && file.target@ == place
            && file.remote_source_location == entry.content_location,
        ItemType::Folder => step matches DownloadStep::Folder(path) && path@ == place,
    }
}

/// The artifact of a given name in what the store lists of a run: the
/// first one of that name.
pub fn find_artifact(list: &Vec<ArtifactResponse>, artifact_name: &str) -> (found: Result<
    usize,
    DownloadError,
>)
    ensures
        match found {
            Ok(at) => at < list@.len() && list@[at as int].name@ == artifact_name@ && forall|j: int|
                0 <= j < at ==> (#[trigger] list@[j]).name@ != artifact_name@,
            Err(_) => forall|j: int|
                0 <= j < list@.len() ==> (#[trigger] list@[j]).name@ != artifact_name@,
        },
{
    let mut i: usize = 0;
    while i < list.len()
        invariant
            i <= list.len(),
            forall|j: int| 0 <= j < i ==> (#[trigger] list@[j]).name@ != artifact_name@,
        decreases list.len() - i,
    {
        if same_text(list[i].name.as_str(), artifact_name) {
            return Ok(i);
        }
        i += 1;
    }
    Err(DownloadError::ArtifactNotFound)
}

impl ArtifactDownloader {
    /// Sets the download of the artifact of a given name up, from what the
    /// store lists of the run and from the items of the artifact's
    /// container.
    pub fn new(
        artifact_name: &str,
        info: ArtifactResponse,
        items: Vec<ContainerEntry>,
    ) -> (downloader: Self)
        ensures
            downloader.artifact_name@ == artifact_name@,
            downloader.info == info,
            downloader.items == items,
    {
        ArtifactDownloader { artifact_name: String::from_str(artifact_name), info, items }
    }

    /// The steps that bring the whole artifact under `root_path`: one for
    /// each item, in the order of the items.
    pub fn download_all_to(&self, root_path: &str) -> (steps: Vec<DownloadStep>)
        ensures
            steps@.len() == self.items@.len(),
            forall|i: int|
                0 <= i < steps@.len() ==> step_for(root_path@, self.items@[i], #[trigger] steps@[i]),
    {
        let mut steps: Vec<DownloadStep> = Vec::new();
        let mut i: usize = 0;
        while i < self.items.len()
            invariant
                i <= self.items@.len(),
                steps@.len() == i,
                forall|j: int|
                    0 <= j < i ==> step_for(root_path@, self.items@[j], #[trigger] steps@[j]),
            decreases self.items.len() - i,
        {
            let item = &self.items[i];
            let step = match item.item_type {
                ItemType::File => DownloadStep::File(FileToDownload::to_subtree(root_path, item)),
                ItemType::Folder => DownloadStep::Folder(
                    join(root_path, item.relative_path().as_str()),
                ),
            };
            steps.push(step);
            i += 1;
        }
        steps
    }

    /// The items of the artifact that are files, in the order of the
    /// items.
    pub fn file_items(&self) -> (files: Vec<ContainerEntry>)
        ensures
            files@ == self.items@.filter(|entry: ContainerEntry| entry.item_type == ItemType::File),
    {
        let ghost is_file = |entry: ContainerEntry| entry.item_type == ItemType::File;
        let mut files: Vec<ContainerEntry> = Vec::new();
        let mut i: usize = 0;
        assert(self.items@.subrange(0, 0).filter(is_file) =~= Seq::<ContainerEntry>::empty()) by {
            reveal(Seq::filter);
        }
        while i < self.items.len()
            invariant
                i <= self.items@.len(),
                is_file == |entry: ContainerEntry| entry.item_type == ItemType::File,
                files@ == self.items@.subrange(0, i as int).filter(is_file),
            decreases self.items.len() - i,
        {
            proof {
                assert(self.items@.subrange(0, i + 1) =~= self.items@.subrange(0, i as int).push(
                    self.items@[i as int],
                ));
                lemma_filter_push(self.items@.subrange(0, i as int), self.items@[i as int], is_file);
            }
            if self.items[i].item_type == ItemType::File {
                files.push(self.items[i].clone());
            }
            i += 1;
        }
        assert(self.items@.subrange(0, self.items@.len() as int) =~= self.items@);
        files
    }
}

/// The media type of the content that a download asks for, from
/// `mime::APPLICATION_OCTET_STREAM`.
#[verifier::external_body]
fn octet_stream() -> (media_type: String)
    ensures
        media_type@ == "application/octet-stream"@,
{
    mime::APPLICATION_OCTET_STREAM.as_ref().to_string()
}

/// The name of the header that says which content is accepted, from
/// `reqwest::header::ACCEPT`.
#[verifier::external_body]
fn accept() -> (name: String)
    ensures
        name@ == "accept"@,
{
    reqwest::header::ACCEPT.as_str().to_string()
}

/// The name of the header that says which encodings are accepted, from
/// `reqwest::header::ACCEPT_ENCODING`.
#[verifier::external_body]
fn accept_encoding() -> (name: String)
    ensures
        name@ == "accept-encoding"@,
{
    reqwest::header::ACCEPT_ENCODING.as_str().to_string()
}

/// The headers of a request for the content of an item: compressed
/// content is welcome, and the content is asked for as a stream of bytes,
/// in the version of the store's interface that this library speaks.
pub fn headers() -> (headers: Vec<(String, String)>)
    ensures
        headers@.len() == 2,
        headers@[0].0@ == "accept-encoding"@,
        headers@[0].1@ == "gzip"@,
        headers@[1].0@ == "accept"@,
        headers@[1].1@ == "application/octet-stream"@ + ";api-version="@ + "6.0-preview"@,
{
    let mut headers: Vec<(String, String)> = Vec::new();
    headers.push((accept_encoding(), String::from_str("gzip")));
    headers.push(
        (
            accept(),
            concat3(
                octet_stream().as_str(),
                ";api-version=",
                crate::actions::artifacts::models::API_VERSION,
            ),
        ),
    );
    headers
}

} // verus!
