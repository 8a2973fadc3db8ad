//! Where the task document lives, and what the outcome of reading it means.
//! The read itself is done by the embedding program.

use vstd::prelude::*;
use std::path::PathBuf;
use crate::models::{TaskCollection, TaskCollectionView};

verus! {

/// `std::path::PathBuf`, carried through as an opaque value.
#[verifier::external_type_specification]
#[verifier::external_body]
pub struct ExPathBuf(PathBuf);

/// `PathBuf::clone` of the standard library returns a duplicate of the path.
pub assume_specification[ <PathBuf as Clone>::clone ](path: &PathBuf) -> (copy: PathBuf)
    ensures
        copy == *path,
;

/// Asks the file system whether `path` names something that exists, with
/// `Path::exists` of the standard library. The answer depends on the state
/// of the disk at the moment of the call, so nothing is claimed of it.
#[verifier::external_body]
fn path_exists(path: &PathBuf) -> bool {
    path.exists()
}

/// The outcome of one attempt to read the task document.
#[derive(Debug)]
pub enum StorageRead {
    /// There is no document yet.
    Missing,
    /// The document was read and understood.
    Document(TaskCollection),
    /// The document could not be read or was malformed; the text says why.
    Failed(String),
}

/// What a [`StorageRead`] holds, as mathematical values.
pub enum StorageReadView {
    Missing,
    Document(TaskCollectionView),
    Failed(Seq<char>),
}

impl View for StorageRead {
    type V = StorageReadView;

    open spec fn view(&self) -> StorageReadView {
        match *self {
            StorageRead::Missing => StorageReadView::Missing,
            StorageRead::Document(collection) => StorageReadView::Document(collection@),
            StorageRead::Failed(cause) => StorageReadView::Failed(cause@),
        }
    }
}

/// The storage location of the task document.
#[derive(Debug, Clone)]
pub struct TaskStorage {
    file_path: PathBuf,
}

impl TaskStorage {
    /// The path this storage was made with.
    pub closed spec fn spec_file_path(&self) -> &PathBuf {
        &self.file_path
    }

    /// A storage handle for the document at `file_path`.
    pub fn new(file_path: PathBuf) -> (storage: Self)
        ensures
            *storage.file_path() == file_path,
    {
        TaskStorage { file_path }
    }

    /// The path of the document.
    #[verifier::when_used_as_spec(spec_file_path)]
    pub fn file_path(&self) -> (path: &PathBuf)
        ensures
            path == self.spec_file_path(),
    {
        &self.file_path
    }

    /// Whether the document is there right now. Two calls may disagree,
    /// since other programs can create or remove the file in between.
    pub fn file_exists(&self) -> bool {
        path_exists(&self.file_path)
    }

    /// Turns the outcome of a read into the snapshot a request works on.
    /// A missing document is not a failure: it stands for the empty
    /// collection with the default format version. A document that was read
    /// is passed on unchanged, and a failed read passes on its cause.
    pub fn load_tasks(&self, read: StorageRead) -> (loaded: Result<TaskCollection, String>)
        ensures
            match read {
                StorageRead::Missing => loaded is Ok && loaded->Ok_0@
                    == TaskCollectionView::empty(),
                StorageRead::Document(collection) => loaded == Ok::<TaskCollection, String>(
                    collection,
                ),
                StorageRead::Failed(cause) => loaded == Err::<TaskCollection, String>(cause),
            },
    {
        match read {
            StorageRead::Missing => Ok(TaskCollection::new()),
            StorageRead::Document(collection) => Ok(collection),
            StorageRead::Failed(cause) => Err(cause),
        }
    }
}

} // verus!
