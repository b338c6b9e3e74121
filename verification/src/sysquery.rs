//! Trusted access to the OS hardware-inventory facility. Every item
//! here only hands live system data out as plain values; what those
//! values are depends on the machine, so nothing more is claimed of
//! them.

use vstd::prelude::*;
use crate::disks::DiskRecord;

verus! {

#[verifier::external_type_specification]
#[verifier::external_body]
pub struct ExSystem(sysinfo::System);

#[verifier::external_type_specification]
#[verifier::external_body]
pub struct ExCpu(sysinfo::Cpu);

/// Relies on sysinfo::System::new_all for a system snapshot with
/// everything loaded; what it holds depends on the machine.
#[verifier::external_body]
pub(crate) fn system_new_all() -> sysinfo::System {
    sysinfo::System::new_all()
}

/// Relies on sysinfo::System::refresh_all to bring the snapshot up to
/// date with the live system.
#[verifier::external_body]
pub(crate) fn system_refresh_all(s: &mut sysinfo::System) {
    s.refresh_all();
}

/// Relies on sysinfo::System::name: the host OS display name, if the
/// platform reports one.
#[verifier::external_body]
pub(crate) fn query_os_name() -> Option<String> {
    sysinfo::System::name()
}

/// Relies on sysinfo::System::cpus; hands out the first logical CPU of
/// the snapshot, if the list is non-empty.
#[verifier::external_body]
pub(crate) fn system_cpu0(s: &sysinfo::System) -> Option<&sysinfo::Cpu> {
    s.cpus().first()
}

/// Relies on sysinfo::Cpu::brand for the CPU's brand string.
#[verifier::external_body]
pub(crate) fn cpu_brand(c: &sysinfo::Cpu) -> String {
    c.brand().to_owned()
}

/// Relies on sysinfo::Cpu::frequency: the CPU's frequency in MHz.
#[verifier::external_body]
pub(crate) fn cpu_frequency(c: &sysinfo::Cpu) -> u64 {
    c.frequency()
}

/// Relies on sysinfo::System::total_memory: total physical RAM in bytes.
#[verifier::external_body]
pub(crate) fn system_total_memory(s: &sysinfo::System) -> u64 {
    s.total_memory()
}

/// Relies on sysinfo::Disks::new_with_refreshed_list for the refreshed
/// mount list, and on Disk::name, Disk::total_space (bytes) and
/// Disk::mount_point; each entry is mapped to a plain record, a mount
/// point that is not valid Unicode to `None`.
#[verifier::external_body]
pub(crate) fn disk_records() -> Vec<DiskRecord> {
    sysinfo::Disks::new_with_refreshed_list().list().iter().map(
        |d| DiskRecord {
            name: d.name().to_string_lossy().into_owned(),
            total_bytes: d.total_space(),
            mount_point: d.mount_point().to_str().map(|m| m.to_owned()),
        },
    ).collect()
}

} // verus!
