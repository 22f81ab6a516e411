//! The backup routine: export the primary database into a
//! caller-chosen destination, staging the export under a `.tmp` name
//! so the destination is only ever populated by a rename — or, across
//! volumes, by the copy-then-delete fallback — never by a partially
//! written file.

use vstd::prelude::*;
use crate::disk::Disk;
use crate::pathnames::{tmp_path_of, tmp_suffix, parent_dir, parent_dir_spec};

verus! {

/// Why a backup failed.
#[derive(Clone, Copy, Debug, PartialEq, Eq)]
pub enum BackupError {
    /// The primary database file does not exist.
    SourceMissing,
    /// No connection to the database could be opened.
    ConnectFailed,
    /// The engine's export statement failed.
    ExportFailed,
    /// The rename of the staged file onto the destination failed for
    /// a reason other than crossing volumes.
    RenameFailed,
    /// The cross-device fallback's copy failed.
    CrossDeviceCopyFailed,
    /// The destination was written, but the staged file could not be
    /// removed afterwards.
    CleanupFailed,
}

/// What the database engine reported when it was asked to export a
/// snapshot: the caller runs the engine and hands its verdict in.
#[derive(Clone, Copy, Debug, PartialEq, Eq)]
pub enum EngineOutcome {
    /// The connection opened and the export statement completed.
    Exported,
    /// The connection could not be opened; nothing was written.
    ConnectFailed,
    /// The connection opened but the export statement failed; the
    /// staging file may hold a partial write.
    StatementFailed,
}

/// How the cross-device fallback fared, when the rename was refused
/// because source and destination sit on different volumes.
#[derive(Clone, Copy, Debug, PartialEq, Eq)]
pub enum FallbackOutcome {
    /// The copy and the removal of the staged file both completed.
    Completed,
    /// The copy failed; nothing reached the destination.
    CopyFailed,
    /// The copy completed but the staged file could not be removed;
    /// the destination holds the backup, the staging file remains.
    CleanupFailed,
}

/// What the filesystem reported when the staged file was renamed
/// onto the destination: the caller attempts the rename and hands
/// the verdict in.
#[derive(Clone, Copy, Debug, PartialEq, Eq)]
pub enum RenameOutcome {
    /// The rename succeeded on one volume.
    Renamed,
    /// The rename was refused because source and destination sit on
    /// different volumes; the fallback copied and then deleted.
    CrossesDevices(FallbackOutcome),
    /// The rename failed for any other reason.
    Failed,
}

/// Whether the staged file reached the destination.
pub open spec fn finalize_ok(rename: RenameOutcome) -> bool {
    ||| rename == RenameOutcome::Renamed
    ||| rename == RenameOutcome::CrossesDevices(FallbackOutcome::Completed)
}

/// The file map after a successful backup of the database at `db`
/// to the destination `to`: the destination holds the source's
/// contents and the staging file is gone.
pub open spec fn backup_post(files: Map<Seq<u8>, Seq<u8>>, db: Seq<u8>, to: Seq<u8>) -> Map<Seq<u8>, Seq<u8>> {
    files.remove(to + tmp_suffix()).insert(to, files[db])
}

/// The directory set after the backup has made sure the destination's
/// parent exists.
pub open spec fn ensured_parent(dirs: Set<Seq<u8>>, to: Seq<u8>) -> Set<Seq<u8>> {
    match parent_dir_spec(to) {
        Some(par) => dirs.insert(par),
        None => dirs,
    }
}

/// Back up the database at `db_path` to `to_path`.
///
/// The engine's export writes a transactionally consistent snapshot
/// of the database; on the modelled filesystem that snapshot is the
/// database file's contents, written to the `.tmp` staging path and
/// then moved onto the destination. `engine` and `rename` are the
/// verdicts of the engine's export and of the filesystem's rename,
/// handed in by the caller who ran them: after a failed statement or
/// a failed rename the staging file is cleaned up, after a failed
/// connection nothing was staged, and only a completed rename or a
/// completed cross-device fallback populates the destination.
pub fn backup_database(
    disk: &mut Disk,
    db_path: &[u8],
    to_path: &[u8],
    engine: EngineOutcome,
    rename: RenameOutcome,
) -> (r: Result<(), BackupError>)
    ensures
        r is Ok <==> old(disk)@.files.contains_key(db_path@)
            && engine == EngineOutcome::Exported && finalize_ok(rename),
        !old(disk)@.files.contains_key(db_path@) ==> {
            &&& r == Result::<(), BackupError>::Err(BackupError::SourceMissing)
            &&& final(disk)@.files == old(disk)@.files
            &&& final(disk)@.dirs == old(disk)@.dirs
        },
        old(disk)@.files.contains_key(db_path@) ==>
            final(disk)@.dirs == ensured_parent(old(disk)@.dirs, to_path@),
        old(disk)@.files.contains_key(db_path@) && engine == EngineOutcome::ConnectFailed ==> {
            &&& r == Result::<(), BackupError>::Err(BackupError::ConnectFailed)
            &&& final(disk)@.files == old(disk)@.files
        },
        old(disk)@.files.contains_key(db_path@) && engine == EngineOutcome::StatementFailed ==> {
            &&& r == Result::<(), BackupError>::Err(BackupError::ExportFailed)
            &&& final(disk)@.files == old(disk)@.files.remove(to_path@ + tmp_suffix())
        },
        old(disk)@.files.contains_key(db_path@) && engine == EngineOutcome::Exported
            && finalize_ok(rename) ==>
            final(disk)@.files == backup_post(old(disk)@.files, db_path@, to_path@),
        old(disk)@.files.contains_key(db_path@) && engine == EngineOutcome::Exported
            && rename == RenameOutcome::Failed ==> {
            &&& r == Result::<(), BackupError>::Err(BackupError::RenameFailed)
            &&& final(disk)@.files == old(disk)@.files.remove(to_path@ + tmp_suffix())
        },
        old(disk)@.files.contains_key(db_path@) && engine == EngineOutcome::Exported
            && rename == RenameOutcome::CrossesDevices(FallbackOutcome::CopyFailed) ==> {
            &&& r == Result::<(), BackupError>::Err(BackupError::CrossDeviceCopyFailed)
            &&& final(disk)@.files == old(disk)@.files.remove(to_path@ + tmp_suffix())
        },
        old(disk)@.files.contains_key(db_path@) && engine == EngineOutcome::Exported
            && rename == RenameOutcome::CrossesDevices(FallbackOutcome::CleanupFailed) ==> {
            &&& r == Result::<(), BackupError>::Err(BackupError::CleanupFailed)
            &&& final(disk)@.files == old(disk)@.files
                .insert(to_path@ + tmp_suffix(), old(disk)@.files[db_path@])
                .insert(to_path@, old(disk)@.files[db_path@])
        },
{
    if !disk.file_exists(db_path) {
        return Err(BackupError::SourceMissing);
    }
    match parent_dir(to_path) {
        Some(par) => {
            if !disk.dir_exists(par.as_slice()) {
                disk.create_dir_all(par.as_slice());
            } else {
                proof {
                    assert(old(disk)@.dirs.insert(par@) =~= old(disk)@.dirs);
                }
            }
        }
        None => {}
    }
    match engine {
        EngineOutcome::ConnectFailed => Err(BackupError::ConnectFailed),
        EngineOutcome::StatementFailed => {
            let temp = tmp_path_of(to_path);
            disk.remove_file(temp.as_slice());
            Err(BackupError::ExportFailed)
        }
        EngineOutcome::Exported => {
            let temp = tmp_path_of(to_path);
            disk.copy_file(db_path, temp.as_slice());
            match rename {
                RenameOutcome::Renamed => {
                    disk.rename_file(temp.as_slice(), to_path);
                    proof {
                        assert(disk@.files =~= backup_post(old(disk)@.files, db_path@, to_path@));
                    }
                    Ok(())
                }
                RenameOutcome::CrossesDevices(FallbackOutcome::Completed) => {
                    disk.copy_file(temp.as_slice(), to_path);
                    disk.remove_file(temp.as_slice());
                    proof {
                        assert((to_path@ + tmp_suffix()).len() == to_path@.len() + 4);
                        assert(disk@.files =~= backup_post(old(disk)@.files, db_path@, to_path@));
                    }
                    Ok(())
                }
                RenameOutcome::CrossesDevices(FallbackOutcome::CopyFailed) => {
                    disk.remove_file(temp.as_slice());
                    proof {
                        assert(disk@.files =~= old(disk)@.files.remove(to_path@ + tmp_suffix()));
                    }
                    Err(BackupError::CrossDeviceCopyFailed)
                }
                RenameOutcome::CrossesDevices(FallbackOutcome::CleanupFailed) => {
                    disk.copy_file(temp.as_slice(), to_path);
                    Err(BackupError::CleanupFailed)
                }
                RenameOutcome::Failed => {
                    disk.remove_file(temp.as_slice());
                    proof {
                        assert(disk@.files =~= old(disk)@.files.remove(to_path@ + tmp_suffix()));
                    }
                    Err(BackupError::RenameFailed)
                }
            }
        }
    }
}

/// A failed export leaves no artifact: when the destination did not
/// exist beforehand, neither the destination nor its staging file
/// exists after the cleanup that follows an export failure.
pub proof fn lemma_failed_export_leaves_no_artifacts(files: Map<Seq<u8>, Seq<u8>>, to: Seq<u8>)
    requires
        !files.contains_key(to),
    ensures
        !files.remove(to + tmp_suffix()).contains_key(to),
        !files.remove(to + tmp_suffix()).contains_key(to + tmp_suffix()),
{
}

/// A successful backup leaves no staging file, and the destination
/// holds exactly what the database held.
pub proof fn lemma_backup_success_state(files: Map<Seq<u8>, Seq<u8>>, db: Seq<u8>, to: Seq<u8>)
    ensures
        !backup_post(files, db, to).contains_key(to + tmp_suffix()),
        backup_post(files, db, to).contains_key(to),
        backup_post(files, db, to)[to] == files[db],
{
    assert((to + tmp_suffix()).len() == to.len() + 4);
}

/// The export is a function of the database's contents alone: from
/// one and the same state, backups to any two destinations put the
/// same contents there.
pub proof fn lemma_backup_deterministic(files: Map<Seq<u8>, Seq<u8>>, db: Seq<u8>, to1: Seq<u8>, to2: Seq<u8>)
    ensures
        backup_post(files, db, to1)[to1] == backup_post(files, db, to2)[to2],
{
    lemma_backup_success_state(files, db, to1);
    lemma_backup_success_state(files, db, to2);
}

/// Running the backup twice from an unchanged database produces two
/// destination files with identical contents: after the second
/// backup, both destinations hold what the database held. The
/// database must not be the first call's staging path (the first
/// call removes that name, so the database would not be unchanged),
/// and the first destination must not be the second call's staging
/// path (the second call would remove it again).
pub proof fn lemma_backup_twice_identical(files: Map<Seq<u8>, Seq<u8>>, db: Seq<u8>, to1: Seq<u8>, to2: Seq<u8>)
    requires
        db != to1 + tmp_suffix(),
        to1 != to2 + tmp_suffix(),
    ensures
        backup_post(backup_post(files, db, to1), db, to2)[to1] == files[db],
        backup_post(backup_post(files, db, to1), db, to2)[to2] == files[db],
{
    lemma_backup_success_state(files, db, to1);
    let after_first = backup_post(files, db, to1);
    lemma_backup_success_state(after_first, db, to2);
    assert(after_first[db] == files[db]);
    if to1 != to2 {
        assert(backup_post(after_first, db, to2)[to1] == after_first[to1]);
    }
}

} // verus!
