//! A best-effort hardware/software inventory core with a report
//! persistence layer. The inventory side merges independent probe
//! results — board identity, RAM type, CPU, memory and disks — into one
//! fully populated record, absorbing every probe failure into a
//! documented placeholder. The persistence side resolves a writable
//! user directory without assuming any path exists and pins the
//! canonical report path and result messages. The platform I/O itself
//! (file reads, process spawning, environment access) is performed by
//! the application shell, which hands its raw outcomes in as plain
//! values.

pub mod board;
pub mod disks;
pub mod inventory;
pub mod numfmt;
pub mod ram;
pub mod save;
pub mod sysquery;
pub mod text;
