use vstd::prelude::*;
use vstd::string::StringExecFns;

use crate::error::{dir_unresolved_message, StoreError, StoreErrorKind};

verus! {

/// Name of the app-specific subfolder inside the platform data directory.
pub open spec fn app_subfolder_name() -> Seq<char> {
    "ss-graph-tool"@
}

/// Name of the one file the store owns.
pub open spec fn layout_file_name() -> Seq<char> {
    "nodePositions.json"@
}

/// Separator used when joining path components.
pub open spec fn path_sep() -> Seq<char> {
    "/"@
}

/// The app subfolder under a given base directory.
pub open spec fn subfolder_path(base: Seq<char>) -> Seq<char> {
    base + path_sep() + app_subfolder_name()
}

/// The layout file inside the app subfolder under a given base directory.
pub open spec fn layout_file_path(base: Seq<char>) -> Seq<char> {
    subfolder_path(base) + path_sep() + layout_file_name()
}

/// Where the store keeps its one file: the platform base directory, the
/// app subfolder under it, and the layout file inside that subfolder.
#[derive(Debug)]
pub struct StorageLocation {
    pub base: String,
    pub subfolder: String,
    pub file: String,
}

impl StorageLocation {
    /// The two derived paths really are the subfolder and the file under `base`.
    pub open spec fn wf(self) -> bool {
        &&& self.subfolder@ == subfolder_path(self.base@)
        &&& self.file@ == layout_file_path(self.base@)
    }
}

/// Builds the storage location for a given platform base directory.
pub fn storage_location_for(base: &str) -> (loc: StorageLocation)
    ensures
        loc.wf(),
        loc.base@ == base@,
{
    let mut subfolder = base.to_owned();
    subfolder.append("/");
    subfolder.append("ss-graph-tool");
    let mut file = subfolder.clone();
    file.append("/");
    file.append("nodePositions.json");
    StorageLocation { base: base.to_owned(), subfolder, file }
}

/// Relies on dirs::data_local_dir: yields the platform's per-user local
/// application data directory, or nothing when the platform defines none.
/// The result depends on the process environment, so nothing is promised
/// of the returned text.
#[verifier::external_body]
fn local_data_dir() -> (r: Option<String>) {
    match dirs::data_local_dir() {
        Some(p) => Some(p.to_string_lossy().into_owned()),
        None => None,
    }
}

/// Resolves the storage location from the platform environment. Fails
/// exactly when the platform offers no local data directory; creating the
/// subfolder on disk is the caller's step, not this one.
pub fn resolve_storage_location() -> (r: Result<StorageLocation, StoreError>)
    ensures
        r matches Ok(loc) ==> loc.wf(),
        r matches Err(e) ==> e.kind == StoreErrorKind::DirectoryResolution
            && e.message@ == dir_unresolved_message(),
{
    match local_data_dir() {
        Some(base) => Ok(storage_location_for(base.as_str())),
        None => Err(StoreError::directory_unresolved()),
    }
}

} // verus!
