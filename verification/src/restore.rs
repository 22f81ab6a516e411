//! The restore routine: make a snapshot file the new primary
//! database, after refusing sources that look like live journaled
//! databases, and after renaming the previous primary database to a
//! timestamped safety copy.

use vstd::prelude::*;
use crate::disk::Disk;
use crate::pathnames::{
    bak_name, bak_path_of, db_shm_ext, db_shm_ext_bytes, db_wal_ext, db_wal_ext_bytes,
    shm_path_of, shm_suffix, wal_path_of, wal_suffix, with_ext_spec, with_extension,
};
use crate::timestamp::{format_timestamp, timestamp_bytes, UtcTime};

verus! {

/// Why a restore failed.
#[derive(Clone, Copy, Debug, PartialEq, Eq)]
pub enum RestoreError {
    /// The source file does not exist.
    SourceMissing,
    /// A `-wal` or `-shm` sidecar sits beside the source: it looks
    /// like a live journaled database, not a self-contained snapshot.
    LiveSource,
    /// The source could not be copied onto the primary path.
    CopyFailed,
}

/// What the filesystem reported when the snapshot was copied onto
/// the primary path: the caller attempts the copy and hands the
/// verdict in.
#[derive(Clone, Copy, Debug, PartialEq, Eq)]
pub enum CopyOutcome {
    /// The copy completed.
    Copied,
    /// The copy failed; the primary path holds nothing new.
    Failed,
}

/// Whether `from` looks like a live journaled database: a sidecar
/// file exists beside it, under the alternate-extension naming or
/// under the suffix-appended naming.
pub open spec fn live_source(files: Map<Seq<u8>, Seq<u8>>, from: Seq<u8>) -> bool {
    ||| files.contains_key(with_ext_spec(from, db_wal_ext()))
    ||| files.contains_key(with_ext_spec(from, db_shm_ext()))
    ||| files.contains_key(from + wal_suffix())
    ||| files.contains_key(from + shm_suffix())
}

/// The file map after the pre-restore safety copy: a primary database
/// that exists is renamed to its `.bak-<timestamp>` name.
pub open spec fn after_safety_copy(files: Map<Seq<u8>, Seq<u8>>, db: Seq<u8>, ts: Seq<u8>) -> Map<Seq<u8>, Seq<u8>> {
    if files.contains_key(db) {
        files.remove(db).insert(bak_name(db, ts), files[db])
    } else {
        files
    }
}

/// The file map after a completed restore: on top of the safety copy,
/// the source's contents sit at the primary path and both sidecar
/// names beside the primary path are gone.
pub open spec fn restore_post(files: Map<Seq<u8>, Seq<u8>>, db: Seq<u8>, from: Seq<u8>, ts: Seq<u8>) -> Map<Seq<u8>, Seq<u8>> {
    let moved = after_safety_copy(files, db, ts);
    moved.insert(db, moved[from]).remove(db + wal_suffix()).remove(db + shm_suffix())
}

/// Restore the database at `db_path` from the snapshot at
/// `from_path`, at the time `now`.
///
/// The source must exist and must not have a write-ahead-log or
/// shared-memory sidecar under either naming convention. An existing
/// primary database is first renamed — not copied — to its
/// timestamped safety name. The source is then copied — not moved —
/// onto the primary path, and any stale sidecar beside the primary
/// path is deleted. `fs_copy` is the filesystem's verdict on that
/// copy, handed in by the caller who ran it: when the copy fails,
/// the safety rename stands, the primary path holds nothing new, and
/// the failure is surfaced.
pub fn restore_database(disk: &mut Disk, db_path: &[u8], from_path: &[u8], now: UtcTime, fs_copy: CopyOutcome) -> (r: Result<(), RestoreError>)
    requires
        now.wf(),
    ensures
        final(disk)@.dirs == old(disk)@.dirs,
        r is Ok <==> {
            &&& old(disk)@.files.contains_key(from_path@)
            &&& !live_source(old(disk)@.files, from_path@)
            &&& after_safety_copy(old(disk)@.files, db_path@, timestamp_bytes(now)).contains_key(from_path@)
            &&& fs_copy == CopyOutcome::Copied
        },
        !old(disk)@.files.contains_key(from_path@) ==> {
            &&& r == Result::<(), RestoreError>::Err(RestoreError::SourceMissing)
            &&& final(disk)@.files == old(disk)@.files
        },
        old(disk)@.files.contains_key(from_path@) && live_source(old(disk)@.files, from_path@) ==> {
            &&& r == Result::<(), RestoreError>::Err(RestoreError::LiveSource)
            &&& final(disk)@.files == old(disk)@.files
        },
        old(disk)@.files.contains_key(from_path@) && !live_source(old(disk)@.files, from_path@)
            && (!after_safety_copy(old(disk)@.files, db_path@, timestamp_bytes(now)).contains_key(from_path@)
                || fs_copy == CopyOutcome::Failed) ==> {
            &&& r == Result::<(), RestoreError>::Err(RestoreError::CopyFailed)
            &&& final(disk)@.files == after_safety_copy(old(disk)@.files, db_path@, timestamp_bytes(now))
        },
        old(disk)@.files.contains_key(from_path@) && !live_source(old(disk)@.files, from_path@)
            && after_safety_copy(old(disk)@.files, db_path@, timestamp_bytes(now)).contains_key(from_path@)
            && fs_copy == CopyOutcome::Copied ==> {
            &&& r == Result::<(), RestoreError>::Ok(())
            &&& final(disk)@.files == restore_post(old(disk)@.files, db_path@, from_path@, timestamp_bytes(now))
        },
{
    if !disk.file_exists(from_path) {
        return Err(RestoreError::SourceMissing);
    }
    let ext_wal = db_wal_ext_bytes();
    let side_wal_ext = with_extension(from_path, ext_wal.as_slice());
    let ext_shm = db_shm_ext_bytes();
    let side_shm_ext = with_extension(from_path, ext_shm.as_slice());
    let side_wal = wal_path_of(from_path);
    let side_shm = shm_path_of(from_path);
    if disk.file_exists(side_wal_ext.as_slice())
        || disk.file_exists(side_shm_ext.as_slice())
        || disk.file_exists(side_wal.as_slice())
        || disk.file_exists(side_shm.as_slice())
    {
        return Err(RestoreError::LiveSource);
    }
    if disk.file_exists(db_path) {
        let ts = format_timestamp(now);
        let bak = bak_path_of(db_path, ts.as_slice());
        disk.rename_file(db_path, bak.as_slice());
    }
    if !disk.file_exists(from_path) {
        return Err(RestoreError::CopyFailed);
    }
    match fs_copy {
        CopyOutcome::Failed => {
            return Err(RestoreError::CopyFailed);
        }
        CopyOutcome::Copied => {}
    }
    disk.copy_file(from_path, db_path);
    let primary_wal = wal_path_of(db_path);
    disk.remove_file(primary_wal.as_slice());
    let primary_shm = shm_path_of(db_path);
    disk.remove_file(primary_shm.as_slice());
    proof {
        assert(disk@.files =~= restore_post(old(disk)@.files, db_path@, from_path@, timestamp_bytes(now)));
    }
    Ok(())
}

/// The safety copy survives the restore: when a primary database
/// existed beforehand, the timestamped `.bak-` file exists afterwards
/// and holds exactly the pre-restore primary database's contents.
pub proof fn lemma_restore_keeps_safety_copy(files: Map<Seq<u8>, Seq<u8>>, db: Seq<u8>, from: Seq<u8>, ts: Seq<u8>)
    requires
        files.contains_key(db),
    ensures
        restore_post(files, db, from, ts).contains_key(bak_name(db, ts)),
        restore_post(files, db, from, ts)[bak_name(db, ts)] == files[db],
{
    assert(bak_name(db, ts).len() == db.len() + 5 + ts.len());
    assert((db + wal_suffix()).len() == db.len() + 4);
    assert((db + shm_suffix()).len() == db.len() + 4);
}

/// A completed restore installs the source's contents at the primary
/// path, leaves no sidecar beside it, and leaves the source file as
/// it was — provided the source is none of the paths the restore
/// itself writes or removes.
pub proof fn lemma_restore_installs_snapshot(files: Map<Seq<u8>, Seq<u8>>, db: Seq<u8>, from: Seq<u8>, ts: Seq<u8>)
    requires
        files.contains_key(from),
        from != db,
        from != bak_name(db, ts),
    ensures
        restore_post(files, db, from, ts).contains_key(db),
        restore_post(files, db, from, ts)[db] == files[from],
        !restore_post(files, db, from, ts).contains_key(db + wal_suffix()),
        !restore_post(files, db, from, ts).contains_key(db + shm_suffix()),
        from != db + wal_suffix() && from != db + shm_suffix() ==> {
            &&& restore_post(files, db, from, ts).contains_key(from)
            &&& restore_post(files, db, from, ts)[from] == files[from]
        },
{
    assert((db + wal_suffix()).len() == db.len() + 4);
    assert((db + shm_suffix()).len() == db.len() + 4);
}

} // verus!
