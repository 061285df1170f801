use vstd::prelude::*;

use crate::error::{
    dir_create_failed_message, dir_unresolved_message, read_failed_message, write_failed_message,
    StoreError, StoreErrorKind,
};
use crate::location::{layout_file_path, storage_location_for};

verus! {

/// A model of everything the store sees of its environment: whether the
/// platform names a data directory, whether the app subfolder exists, and
/// what the layout file currently holds. In each `*_error` field, `None`
/// means that step would succeed and `Some(detail)` that it would fail
/// with that diagnostic.
#[derive(Debug)]
pub struct Disk {
    pub data_dir: Option<String>,
    pub subfolder_exists: bool,
    pub create_error: Option<String>,
    pub write_error: Option<String>,
    pub read_error: Option<String>,
    pub file: Option<String>,
}

/// The mathematical value of a `Disk`: the same fields over `Seq<char>`.
#[verifier::ext_equal]
pub struct DiskView {
    pub data_dir: Option<Seq<char>>,
    pub subfolder_exists: bool,
    pub create_error: Option<Seq<char>>,
    pub write_error: Option<Seq<char>>,
    pub read_error: Option<Seq<char>>,
    pub file: Option<Seq<char>>,
}

impl View for Disk {
    type V = DiskView;

    open spec fn view(&self) -> DiskView {
        DiskView {
            data_dir: self.data_dir.deep_view(),
            subfolder_exists: self.subfolder_exists,
            create_error: self.create_error.deep_view(),
            write_error: self.write_error.deep_view(),
            read_error: self.read_error.deep_view(),
            file: self.file.deep_view(),
        }
    }
}

/// A fresh environment: the platform names a data directory, nothing of
/// the store exists yet, and every step would go through.
pub open spec fn fresh_disk(base: Seq<char>) -> DiskView {
    DiskView {
        data_dir: Some(base),
        subfolder_exists: false,
        create_error: None,
        write_error: None,
        read_error: None,
        file: None,
    }
}

/// Resolution succeeds: a data directory exists, and the app subfolder is
/// already there or can be created.
pub open spec fn resolve_succeeds(d: DiskView) -> bool {
    d.data_dir is Some && (d.subfolder_exists || d.create_error is None)
}

/// Resolution creates the subfolder when it can; a failure changes nothing.
pub open spec fn disk_after_resolve(d: DiskView) -> DiskView {
    if resolve_succeeds(d) {
        DiskView { subfolder_exists: true, ..d }
    } else {
        d
    }
}

/// The diagnostic text when resolution fails.
pub open spec fn resolve_error_message(d: DiskView) -> Seq<char> {
    if d.data_dir is None {
        dir_unresolved_message()
    } else {
        dir_create_failed_message(d.create_error->0)
    }
}

/// A save succeeds: the location resolves and the write goes through.
pub open spec fn save_succeeds(d: DiskView) -> bool {
    resolve_succeeds(d) && d.write_error is None
}

/// A successful save overwrites the file with the blob; a failed one
/// leaves the file as it was, though resolution may have created the
/// subfolder first.
pub open spec fn disk_after_save(d: DiskView, blob: Seq<char>) -> DiskView {
    if save_succeeds(d) {
        DiskView { subfolder_exists: true, file: Some(blob), ..d }
    } else {
        disk_after_resolve(d)
    }
}

/// Which failure class a failed save reports.
pub open spec fn save_error_kind(d: DiskView) -> StoreErrorKind {
    if !resolve_succeeds(d) {
        StoreErrorKind::DirectoryResolution
    } else {
        StoreErrorKind::Io
    }
}

/// The diagnostic text of a failed save.
pub open spec fn save_error_message(d: DiskView) -> Seq<char> {
    if !resolve_succeeds(d) {
        resolve_error_message(d)
    } else {
        write_failed_message(layout_file_path(d.data_dir->0), d.write_error->0)
    }
}

/// A load succeeds: the location resolves and the read either finds the
/// file, fails with not-found, or returns its contents.
pub open spec fn load_succeeds(d: DiskView) -> bool {
    resolve_succeeds(d) && d.read_error is None
}

/// What a successful load returns: the file's contents verbatim, or the
/// empty string when no file exists yet.
pub open spec fn loaded_blob(d: DiskView) -> Seq<char> {
    match d.file {
        Some(contents) => contents,
        None => Seq::<char>::empty(),
    }
}

/// A load changes the disk only by resolving the location.
pub open spec fn disk_after_load(d: DiskView) -> DiskView {
    disk_after_resolve(d)
}

/// Which failure class a failed load reports.
pub open spec fn load_error_kind(d: DiskView) -> StoreErrorKind {
    if !resolve_succeeds(d) {
        StoreErrorKind::DirectoryResolution
    } else {
        StoreErrorKind::Io
    }
}

/// The diagnostic text of a failed load.
pub open spec fn load_error_message(d: DiskView) -> Seq<char> {
    if !resolve_succeeds(d) {
        resolve_error_message(d)
    } else {
        read_failed_message(layout_file_path(d.data_dir->0), d.read_error->0)
    }
}

/// What one attempt to read the layout file produced: its contents, an
/// absent file, or a failure with its diagnostic.
#[derive(Debug)]
pub enum ReadOutcome {
    Found(String),
    Missing,
    Failed(String),
}

/// Turns a read attempt into the store's result: contents pass through
/// verbatim, an absent file loads as the empty string, and any other
/// failure is an I/O error naming `path`.
pub fn interpret_read_outcome(path: &str, outcome: ReadOutcome) -> (r: Result<String, StoreError>)
    ensures
        outcome matches ReadOutcome::Found(contents) ==> r matches Ok(c) && c@ == contents@,
        outcome is Missing ==> (r matches Ok(c) && c@ == Seq::<char>::empty()),
        outcome matches ReadOutcome::Failed(detail) ==> r matches Err(e)
            && e.kind == StoreErrorKind::Io
            && e.message@ == read_failed_message(path@, detail@),
{
    match outcome {
        ReadOutcome::Found(contents) => Ok(contents),
        ReadOutcome::Missing => Ok(String::new()),
        ReadOutcome::Failed(detail) => Err(StoreError::read_failed(path, detail.as_str())),
    }
}

/// Resolves the layout file's path against the modeled environment,
/// creating the app subfolder when it is missing.
pub fn get_layout_file_path(d: &mut Disk) -> (r: Result<String, StoreError>)
    ensures
        final(d)@ == disk_after_resolve(old(d)@),
        r is Ok <==> resolve_succeeds(old(d)@),
        r matches Ok(p) ==> p@ == layout_file_path(old(d)@.data_dir->0),
        r matches Err(e) ==> e.kind == StoreErrorKind::DirectoryResolution
            && e.message@ == resolve_error_message(old(d)@),
{
    let base = match &d.data_dir {
        Some(b) => b.clone(),
        None => {
            return Err(StoreError::directory_unresolved());
        },
    };
    if !d.subfolder_exists {
        match &d.create_error {
            Some(detail) => {
                return Err(StoreError::directory_create_failed(detail.as_str()));
            },
            None => {
                d.subfolder_exists = true;
            },
        }
    }
    let loc = storage_location_for(base.as_str());
    Ok(loc.file)
}

/// Overwrites the modeled layout file with `json_data`, resolving the
/// location (and creating the subfolder) first.
pub fn save_layout_to_disk(d: &mut Disk, json_data: String) -> (r: Result<(), StoreError>)
    ensures
        final(d)@ == disk_after_save(old(d)@, json_data@),
        r is Ok <==> save_succeeds(old(d)@),
        r matches Err(e) ==> e.kind == save_error_kind(old(d)@)
            && e.message@ == save_error_message(old(d)@),
{
    let path = match get_layout_file_path(d) {
        Ok(p) => p,
        Err(e) => {
            return Err(e);
        },
    };
    match &d.write_error {
        Some(detail) => Err(StoreError::write_failed(path.as_str(), detail.as_str())),
        None => {
            d.file = Some(json_data);
            Ok(())
        },
    }
}

/// Reads the modeled layout file. An absent file is "no data yet" and
/// loads as the empty string rather than an error.
pub fn load_layout_from_disk(d: &mut Disk) -> (r: Result<String, StoreError>)
    ensures
        final(d)@ == disk_after_load(old(d)@),
        r is Ok <==> load_succeeds(old(d)@),
        r matches Ok(s) ==> s@ == loaded_blob(old(d)@),
        r matches Err(e) ==> e.kind == load_error_kind(old(d)@)
            && e.message@ == load_error_message(old(d)@),
{
    let path = match get_layout_file_path(d) {
        Ok(p) => p,
        Err(e) => {
            return Err(e);
        },
    };
    let outcome = match &d.read_error {
        Some(detail) => ReadOutcome::Failed(detail.clone()),
        None => match &d.file {
            Some(contents) => ReadOutcome::Found(contents.clone()),
            None => ReadOutcome::Missing,
        },
    };
    interpret_read_outcome(path.as_str(), outcome)
}

} // verus!
