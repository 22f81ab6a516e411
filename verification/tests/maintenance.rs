//! The backup and restore routines, exercised on the filesystem model.

use db_maintenance::backup::{backup_database, BackupError, EngineOutcome, FallbackOutcome, RenameOutcome};
use db_maintenance::disk::Disk;
use db_maintenance::restore::{restore_database, CopyOutcome, RestoreError};
use db_maintenance::timestamp::UtcTime;

fn fixed_time() -> UtcTime {
    UtcTime { year: 2025, month: 10, day: 12, hour: 3, minute: 4, second: 5 }
}

fn contents(disk: &Disk, path: &[u8]) -> Option<Vec<u8>> {
    disk.read_file(path).map(|v| v.clone())
}

#[test]
fn backup_creates_missing_parent() {
    let mut disk = Disk::new();
    disk.write_file(b"/data/app.db", b"snapshot".to_vec());
    assert!(!disk.dir_exists(b"/backups"));
    let r = backup_database(&mut disk, b"/data/app.db", b"/backups/out.sqlite", EngineOutcome::Exported, RenameOutcome::Renamed);
    assert_eq!(r, Ok(()));
    assert!(disk.dir_exists(b"/backups"));
    assert_eq!(contents(&disk, b"/backups/out.sqlite"), Some(b"snapshot".to_vec()));
}

#[test]
fn backup_export_failure_leaves_nothing() {
    let mut disk = Disk::new();
    disk.write_file(b"/data/app.db", b"snapshot".to_vec());
    disk.write_file(b"/tmp/out.sqlite.tmp", b"stale staging".to_vec());
    let r = backup_database(&mut disk, b"/data/app.db", b"/tmp/out.sqlite", EngineOutcome::StatementFailed, RenameOutcome::Renamed);
    assert_eq!(r, Err(BackupError::ExportFailed));
    assert!(!disk.file_exists(b"/tmp/out.sqlite"));
    assert!(!disk.file_exists(b"/tmp/out.sqlite.tmp"));
}

#[test]
fn backup_snapshot_scenario() {
    let mut disk = Disk::new();
    disk.write_file(b"/data/app.db", b"parts: 1 row".to_vec());
    let r = backup_database(&mut disk, b"/data/app.db", b"/tmp/out.sqlite", EngineOutcome::Exported, RenameOutcome::Renamed);
    assert_eq!(r, Ok(()));
    assert!(disk.file_exists(b"/tmp/out.sqlite"));
    assert!(!disk.file_exists(b"/tmp/out.sqlite.tmp"));
    assert_eq!(contents(&disk, b"/tmp/out.sqlite"), Some(b"parts: 1 row".to_vec()));
    assert_eq!(contents(&disk, b"/data/app.db"), Some(b"parts: 1 row".to_vec()));
}

#[test]
fn backup_missing_source() {
    let mut disk = Disk::new();
    let r = backup_database(&mut disk, b"/data/app.db", b"/tmp/out.sqlite", EngineOutcome::Exported, RenameOutcome::Renamed);
    assert_eq!(r, Err(BackupError::SourceMissing));
    assert!(!disk.file_exists(b"/tmp/out.sqlite"));
    assert!(!disk.dir_exists(b"/tmp"));
}

#[test]
fn backup_twice_gives_identical_contents() {
    let mut disk = Disk::new();
    disk.write_file(b"/data/app.db", b"unchanged".to_vec());
    let r1 = backup_database(&mut disk, b"/data/app.db", b"/tmp/first.sqlite", EngineOutcome::Exported, RenameOutcome::Renamed);
    let r2 = backup_database(&mut disk, b"/data/app.db", b"/tmp/second.sqlite", EngineOutcome::Exported, RenameOutcome::Renamed);
    assert_eq!(r1, Ok(()));
    assert_eq!(r2, Ok(()));
    assert_eq!(
        contents(&disk, b"/tmp/first.sqlite"),
        contents(&disk, b"/tmp/second.sqlite")
    );
    assert_eq!(contents(&disk, b"/tmp/first.sqlite"), Some(b"unchanged".to_vec()));
}

#[test]
fn restore_rejects_live_wal_sidecar() {
    let mut disk = Disk::new();
    disk.write_file(b"/data/app.db", b"old".to_vec());
    disk.write_file(b"/tmp/live.db", b"live".to_vec());
    disk.write_file(b"/tmp/live.db-wal", b"journal".to_vec());
    let r = restore_database(&mut disk, b"/data/app.db", b"/tmp/live.db", fixed_time(), CopyOutcome::Copied);
    assert_eq!(r, Err(RestoreError::LiveSource));
    assert_eq!(contents(&disk, b"/data/app.db"), Some(b"old".to_vec()));
    assert!(!disk.file_exists(b"/data/app.db.bak-20251012-030405"));
}

#[test]
fn restore_rejects_live_shm_sidecar() {
    let mut disk = Disk::new();
    disk.write_file(b"/data/app.db", b"old".to_vec());
    disk.write_file(b"/tmp/live.db", b"live".to_vec());
    disk.write_file(b"/tmp/live.db-shm", b"shared memory".to_vec());
    let r = restore_database(&mut disk, b"/data/app.db", b"/tmp/live.db", fixed_time(), CopyOutcome::Copied);
    assert_eq!(r, Err(RestoreError::LiveSource));
    assert_eq!(contents(&disk, b"/data/app.db"), Some(b"old".to_vec()));
}

#[test]
fn restore_rejects_alternate_extension_sidecar() {
    let mut disk = Disk::new();
    disk.write_file(b"/data/app.db", b"old".to_vec());
    disk.write_file(b"/tmp/live.sqlite", b"live".to_vec());
    disk.write_file(b"/tmp/live.db-wal", b"journal".to_vec());
    let r = restore_database(&mut disk, b"/data/app.db", b"/tmp/live.sqlite", fixed_time(), CopyOutcome::Copied);
    assert_eq!(r, Err(RestoreError::LiveSource));
    assert_eq!(contents(&disk, b"/data/app.db"), Some(b"old".to_vec()));
}

#[test]
fn restore_takes_timestamped_safety_copy() {
    let mut disk = Disk::new();
    disk.write_file(b"/data/app.db", b"previous contents".to_vec());
    disk.write_file(b"/tmp/snapshot.sqlite", b"restored contents".to_vec());
    let r = restore_database(&mut disk, b"/data/app.db", b"/tmp/snapshot.sqlite", fixed_time(), CopyOutcome::Copied);
    assert_eq!(r, Ok(()));
    assert_eq!(
        contents(&disk, b"/data/app.db.bak-20251012-030405"),
        Some(b"previous contents".to_vec())
    );
}

#[test]
fn restore_installs_snapshot_and_clears_sidecars() {
    let mut disk = Disk::new();
    disk.write_file(b"/data/app.db", b"previous contents".to_vec());
    disk.write_file(b"/data/app.db-wal", b"stale journal".to_vec());
    disk.write_file(b"/data/app.db-shm", b"stale shared memory".to_vec());
    disk.write_file(b"/tmp/snapshot.sqlite", b"restored contents".to_vec());
    let r = restore_database(&mut disk, b"/data/app.db", b"/tmp/snapshot.sqlite", fixed_time(), CopyOutcome::Copied);
    assert_eq!(r, Ok(()));
    assert_eq!(contents(&disk, b"/data/app.db"), Some(b"restored contents".to_vec()));
    assert!(!disk.file_exists(b"/data/app.db-wal"));
    assert!(!disk.file_exists(b"/data/app.db-shm"));
    assert_eq!(contents(&disk, b"/tmp/snapshot.sqlite"), Some(b"restored contents".to_vec()));
}

#[test]
fn restore_without_existing_primary() {
    let mut disk = Disk::new();
    disk.write_file(b"/tmp/snapshot.sqlite", b"fresh".to_vec());
    let r = restore_database(&mut disk, b"/data/app.db", b"/tmp/snapshot.sqlite", fixed_time(), CopyOutcome::Copied);
    assert_eq!(r, Ok(()));
    assert_eq!(contents(&disk, b"/data/app.db"), Some(b"fresh".to_vec()));
    assert!(!disk.file_exists(b"/data/app.db.bak-20251012-030405"));
}

#[test]
fn restore_missing_source() {
    let mut disk = Disk::new();
    disk.write_file(b"/data/app.db", b"old".to_vec());
    let r = restore_database(&mut disk, b"/data/app.db", b"/tmp/absent.sqlite", fixed_time(), CopyOutcome::Copied);
    assert_eq!(r, Err(RestoreError::SourceMissing));
    assert_eq!(contents(&disk, b"/data/app.db"), Some(b"old".to_vec()));
}

#[test]
fn restore_from_primary_path_fails_after_safety_copy() {
    let mut disk = Disk::new();
    disk.write_file(b"/data/app.db", b"only copy".to_vec());
    let r = restore_database(&mut disk, b"/data/app.db", b"/data/app.db", fixed_time(), CopyOutcome::Copied);
    assert_eq!(r, Err(RestoreError::CopyFailed));
    assert!(!disk.file_exists(b"/data/app.db"));
    assert_eq!(
        contents(&disk, b"/data/app.db.bak-20251012-030405"),
        Some(b"only copy".to_vec())
    );
}

#[test]
fn backup_connect_failure_touches_nothing() {
    let mut disk = Disk::new();
    disk.write_file(b"/data/app.db", b"snapshot".to_vec());
    disk.write_file(b"/tmp/out.sqlite.tmp", b"stale staging".to_vec());
    let r = backup_database(&mut disk, b"/data/app.db", b"/tmp/out.sqlite", EngineOutcome::ConnectFailed, RenameOutcome::Renamed);
    assert_eq!(r, Err(BackupError::ConnectFailed));
    assert!(!disk.file_exists(b"/tmp/out.sqlite"));
    assert_eq!(contents(&disk, b"/tmp/out.sqlite.tmp"), Some(b"stale staging".to_vec()));
}

#[test]
fn backup_into_existing_parent() {
    let mut disk = Disk::new();
    disk.write_file(b"/data/app.db", b"snapshot".to_vec());
    disk.create_dir_all(b"/backups");
    let r = backup_database(&mut disk, b"/data/app.db", b"/backups/out.sqlite", EngineOutcome::Exported, RenameOutcome::Renamed);
    assert_eq!(r, Ok(()));
    assert!(disk.dir_exists(b"/backups"));
    assert_eq!(contents(&disk, b"/backups/out.sqlite"), Some(b"snapshot".to_vec()));
}

#[test]
fn backup_cross_device_fallback_completes() {
    let mut disk = Disk::new();
    disk.write_file(b"/data/app.db", b"snapshot".to_vec());
    let r = backup_database(
        &mut disk,
        b"/data/app.db",
        b"/mnt/usb/out.sqlite",
        EngineOutcome::Exported,
        RenameOutcome::CrossesDevices(FallbackOutcome::Completed),
    );
    assert_eq!(r, Ok(()));
    assert_eq!(contents(&disk, b"/mnt/usb/out.sqlite"), Some(b"snapshot".to_vec()));
    assert!(!disk.file_exists(b"/mnt/usb/out.sqlite.tmp"));
}

#[test]
fn backup_cross_device_copy_failure_cleans_staging() {
    let mut disk = Disk::new();
    disk.write_file(b"/data/app.db", b"snapshot".to_vec());
    let r = backup_database(
        &mut disk,
        b"/data/app.db",
        b"/mnt/usb/out.sqlite",
        EngineOutcome::Exported,
        RenameOutcome::CrossesDevices(FallbackOutcome::CopyFailed),
    );
    assert_eq!(r, Err(BackupError::CrossDeviceCopyFailed));
    assert!(!disk.file_exists(b"/mnt/usb/out.sqlite"));
    assert!(!disk.file_exists(b"/mnt/usb/out.sqlite.tmp"));
}

#[test]
fn backup_cross_device_cleanup_failure_keeps_destination() {
    let mut disk = Disk::new();
    disk.write_file(b"/data/app.db", b"snapshot".to_vec());
    let r = backup_database(
        &mut disk,
        b"/data/app.db",
        b"/mnt/usb/out.sqlite",
        EngineOutcome::Exported,
        RenameOutcome::CrossesDevices(FallbackOutcome::CleanupFailed),
    );
    assert_eq!(r, Err(BackupError::CleanupFailed));
    assert_eq!(contents(&disk, b"/mnt/usb/out.sqlite"), Some(b"snapshot".to_vec()));
    assert_eq!(contents(&disk, b"/mnt/usb/out.sqlite.tmp"), Some(b"snapshot".to_vec()));
}

#[test]
fn backup_rename_failure_cleans_staging() {
    let mut disk = Disk::new();
    disk.write_file(b"/data/app.db", b"snapshot".to_vec());
    let r = backup_database(
        &mut disk,
        b"/data/app.db",
        b"/tmp/out.sqlite",
        EngineOutcome::Exported,
        RenameOutcome::Failed,
    );
    assert_eq!(r, Err(BackupError::RenameFailed));
    assert!(!disk.file_exists(b"/tmp/out.sqlite"));
    assert!(!disk.file_exists(b"/tmp/out.sqlite.tmp"));
}

#[test]
fn restore_copy_failure_keeps_safety_copy() {
    let mut disk = Disk::new();
    disk.write_file(b"/data/app.db", b"previous contents".to_vec());
    disk.write_file(b"/tmp/snapshot.sqlite", b"restored contents".to_vec());
    let r = restore_database(
        &mut disk,
        b"/data/app.db",
        b"/tmp/snapshot.sqlite",
        fixed_time(),
        CopyOutcome::Failed,
    );
    assert_eq!(r, Err(RestoreError::CopyFailed));
    assert!(!disk.file_exists(b"/data/app.db"));
    assert_eq!(
        contents(&disk, b"/data/app.db.bak-20251012-030405"),
        Some(b"previous contents".to_vec())
    );
    assert_eq!(contents(&disk, b"/tmp/snapshot.sqlite"), Some(b"restored contents".to_vec()));
}
