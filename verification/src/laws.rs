use vstd::prelude::*;

use crate::store::{
    disk_after_load, disk_after_save, fresh_disk, load_succeeds, loaded_blob, resolve_succeeds,
    save_succeeds, DiskView,
};

verus! {

/// Round trip: when a save goes through and reading stays possible, a
/// load straight after returns exactly the saved text.
pub proof fn lemma_save_then_load_round_trip(d: DiskView, blob: Seq<char>)
    requires
        save_succeeds(d),
        d.read_error is None,
    ensures
        load_succeeds(disk_after_save(d, blob)),
        loaded_blob(disk_after_save(d, blob)) == blob,
{
}

/// First run: loading from a fresh environment succeeds with the empty
/// string, and leaves the app subfolder created.
pub proof fn lemma_first_run_load_is_empty(base: Seq<char>)
    ensures
        load_succeeds(fresh_disk(base)),
        loaded_blob(fresh_disk(base)) == Seq::<char>::empty(),
        disk_after_load(fresh_disk(base)).subfolder_exists,
{
}

/// Idempotent subfolder creation: once resolution succeeds it keeps
/// succeeding after any save, so repeated saves never fail because the
/// subfolder already exists.
pub proof fn lemma_resolution_stays_good_after_save(d: DiskView, blob: Seq<char>)
    requires
        resolve_succeeds(d),
    ensures
        resolve_succeeds(disk_after_save(d, blob)),
        save_succeeds(d) ==> save_succeeds(disk_after_save(d, blob)),
{
}

/// Overwrite: of two saves in a row, the second wins, and a load then
/// returns its text.
pub proof fn lemma_second_save_wins(d: DiskView, a: Seq<char>, b: Seq<char>)
    requires
        save_succeeds(d),
        d.read_error is None,
    ensures
        save_succeeds(disk_after_save(d, a)),
        load_succeeds(disk_after_save(disk_after_save(d, a), b)),
        loaded_blob(disk_after_save(disk_after_save(d, a), b)) == b,
{
}

/// A failed save leaves the stored blob untouched.
pub proof fn lemma_failed_save_leaves_file(d: DiskView, blob: Seq<char>)
    requires
        !save_succeeds(d),
    ensures
        disk_after_save(d, blob).file == d.file,
{
}

} // verus!
