//! Maintenance routines for a single-file database: backup to a
//! caller-chosen path by staging through a temporary file, and restore
//! from a snapshot after safety checks, with a timestamped safety copy
//! of the previous database.
//!
//! The routines' step logic runs against an explicit model of the
//! filesystem (`disk::Disk`), so every decision and every effect on the
//! file map is verified; the thin binary around the library performs the
//! same steps against the real filesystem and database engine.

pub mod backup;
pub mod bytes;
pub mod clock;
pub mod disk;
pub mod pathnames;
pub mod restore;
pub mod timestamp;
