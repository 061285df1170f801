use vstd::prelude::*;
use vstd::string::StringExecFns;

verus! {

/// The store's two failure classes: the platform data directory could not
/// be resolved (or the app subfolder created), or a file read/write failed.
/// A missing file on load is not an error and never reaches this type.
#[derive(Clone, Copy, Debug, PartialEq, Eq, Structural)]
pub enum StoreErrorKind {
    DirectoryResolution,
    Io,
}

/// Text reported when the platform local data directory is unavailable.
pub open spec fn dir_unresolved_message() -> Seq<char> {
    "Could not find platform local data directory"@
}

/// Text reported when the app subfolder could not be created.
pub open spec fn dir_create_failed_message(detail: Seq<char>) -> Seq<char> {
    "Failed to create app data dir: "@ + detail
}

/// Text reported when overwriting the layout file failed.
pub open spec fn write_failed_message(path: Seq<char>, detail: Seq<char>) -> Seq<char> {
    "Failed to write file "@ + path + ": "@ + detail
}

/// Text reported when reading the layout file failed (other than not-found).
pub open spec fn read_failed_message(path: Seq<char>, detail: Seq<char>) -> Seq<char> {
    "Failed to read file "@ + path + ": "@ + detail
}

/// A store failure: a closed kind, plus the human-readable text that is
/// handed to the caller at the boundary.
#[derive(Debug)]
pub struct StoreError {
    pub kind: StoreErrorKind,
    pub message: String,
}

impl StoreError {
    /// The platform offers no local data directory.
    pub fn directory_unresolved() -> (e: StoreError)
        ensures
            e.kind == StoreErrorKind::DirectoryResolution,
            e.message@ == dir_unresolved_message(),
    {
        StoreError {
            kind: StoreErrorKind::DirectoryResolution,
            message: "Could not find platform local data directory".to_owned(),
        }
    }

    /// The app subfolder could not be created; `detail` is the underlying cause.
    pub fn directory_create_failed(detail: &str) -> (e: StoreError)
        ensures
            e.kind == StoreErrorKind::DirectoryResolution,
            e.message@ == dir_create_failed_message(detail@),
    {
        let mut m = "Failed to create app data dir: ".to_owned();
        m.append(detail);
        StoreError { kind: StoreErrorKind::DirectoryResolution, message: m }
    }

    /// Overwriting the file at `path` failed; `detail` is the underlying cause.
    pub fn write_failed(path: &str, detail: &str) -> (e: StoreError)
        ensures
            e.kind == StoreErrorKind::Io,
            e.message@ == write_failed_message(path@, detail@),
    {
        let mut m = "Failed to write file ".to_owned();
        m.append(path);
        m.append(": ");
        m.append(detail);
        StoreError { kind: StoreErrorKind::Io, message: m }
    }

    /// Reading the file at `path` failed with something other than
    /// not-found; `detail` is the underlying cause.
    pub fn read_failed(path: &str, detail: &str) -> (e: StoreError)
        ensures
            e.kind == StoreErrorKind::Io,
            e.message@ == read_failed_message(path@, detail@),
    {
        let mut m = "Failed to read file ".to_owned();
        m.append(path);
        m.append(": ");
        m.append(detail);
        StoreError { kind: StoreErrorKind::Io, message: m }
    }
}

} // verus!
