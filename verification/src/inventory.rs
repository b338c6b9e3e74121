//! The inventory assembler: merges the probes' outcomes into one
//! fully populated record, with every degradation documented in its
//! specification.

use vstd::prelude::*;
use vstd::string::*;
use crate::board::{
    board_bios_spec, board_model_spec, board_strings, board_vendor_spec, motherboard_label,
    BoardQuery, BoardQueryView,
};
use crate::disks::{filter_disks, filter_disks_spec, DiskInfo, DiskInfoView, DiskRecord, DiskRecordView};
use crate::ram::{lemma_ram_type_never_empty, ram_type, ram_type_spec, RamQuery, RamQueryView};
use crate::sysquery::{
    cpu_brand, cpu_frequency, disk_records, query_os_name, system_cpu0, system_new_all,
    system_refresh_all, system_total_memory,
};

verus! {

/// Brand string and frequency of one logical CPU.
pub struct CpuSample {
    pub model: String,
    pub freq_mhz: u64,
}

pub struct CpuSampleView {
    pub model: Seq<char>,
    pub freq_mhz: u64,
}

impl View for CpuSample {
    type V = CpuSampleView;

    open spec fn view(&self) -> CpuSampleView {
        CpuSampleView { model: self.model@, freq_mhz: self.freq_mhz }
    }
}

/// The complete inventory record. Every field is always populated,
/// either with live data or with its documented placeholder; RAM is
/// kept as an exact byte count so no precision is decided here.
pub struct SystemInfo {
    pub os_name: String,
    pub motherboard: String,
    pub bios: String,
    pub cpu_model: String,
    pub cpu_freq_mhz: u64,
    pub ram_total_bytes: u64,
    pub ram_type: String,
    pub disks: Vec<DiskInfo>,
}

pub struct SystemInfoView {
    pub os_name: Seq<char>,
    pub motherboard: Seq<char>,
    pub bios: Seq<char>,
    pub cpu_model: Seq<char>,
    pub cpu_freq_mhz: u64,
    pub ram_total_bytes: u64,
    pub ram_type: Seq<char>,
    pub disks: Seq<DiskInfoView>,
}

impl View for SystemInfo {
    type V = SystemInfoView;

    open spec fn view(&self) -> SystemInfoView {
        SystemInfoView {
            os_name: self.os_name@,
            motherboard: self.motherboard@,
            bios: self.bios@,
            cpu_model: self.cpu_model@,
            cpu_freq_mhz: self.cpu_freq_mhz,
            ram_total_bytes: self.ram_total_bytes,
            ram_type: self.ram_type@,
            disks: self.disks@.map_values(|d: DiskInfo| d@),
        }
    }
}

pub open spec fn opt_view(o: Option<String>) -> Option<Seq<char>> {
    match o {
        Some(s) => Some(s@),
        None => None,
    }
}

pub open spec fn opt_cpu_view(o: Option<CpuSample>) -> Option<CpuSampleView> {
    match o {
        Some(c) => Some(c@),
        None => None,
    }
}

/// The record assembled from the probes' outcomes: an absent or empty
/// OS name degrades to the documented placeholder, a missing CPU entry
/// to an empty model and zero frequency, and the disk list is filtered
/// of zero-capacity entries.
pub open spec fn assemble_spec(
    os_name: Option<Seq<char>>,
    board: BoardQueryView,
    cpu: Option<CpuSampleView>,
    ram_total_bytes: u64,
    ram: RamQueryView,
    disks: Seq<DiskRecordView>,
) -> SystemInfoView {
    SystemInfoView {
        os_name: match os_name {
            Some(n) => if n.len() > 0 {
                n
            } else {
                "Unknown System"@
            },
            None => "Unknown System"@,
        },
        motherboard: board_vendor_spec(board) + " "@ + board_model_spec(board),
        bios: board_bios_spec(board),
        cpu_model: match cpu {
            Some(c) => c.model,
            None => Seq::empty(),
        },
        cpu_freq_mhz: match cpu {
            Some(c) => c.freq_mhz,
            None => 0,
        },
        ram_total_bytes,
        ram_type: ram_type_spec(ram),
        disks: filter_disks_spec(disks),
    }
}

/// A record counts as fully populated when the fields that must never
/// be empty are not: the OS name and the RAM descriptor.
pub open spec fn complete(v: SystemInfoView) -> bool {
    v.os_name.len() > 0 && v.ram_type.len() > 0
}

/// Total absorption: whatever every probe produced — including read
/// failures, failed spawns, empty or malformed output — the assembled
/// record is fully populated; no probe failure escapes assembly.
pub proof fn lemma_total_absorption(
    os_name: Option<Seq<char>>,
    board: BoardQueryView,
    cpu: Option<CpuSampleView>,
    ram_total_bytes: u64,
    ram: RamQueryView,
    disks: Seq<DiskRecordView>,
)
    ensures
        complete(assemble_spec(os_name, board, cpu, ram_total_bytes, ram, disks)),
{
    reveal_strlit("Unknown System");
    lemma_ram_type_never_empty(ram);
}

/// Merges the probes' outcomes into one record, exactly as
/// `assemble_spec` describes.
pub fn assemble(
    os_name: Option<String>,
    board: &BoardQuery,
    cpu: Option<CpuSample>,
    ram_total_bytes: u64,
    ram: &RamQuery,
    disks: &Vec<DiskRecord>,
) -> (r: SystemInfo)
    ensures
        r@ == assemble_spec(
            opt_view(os_name),
            board@,
            opt_cpu_view(cpu),
            ram_total_bytes,
            ram@,
            disks@.map_values(|d: DiskRecord| d@),
        ),
{
    let (vendor, model, bios) = board_strings(board);
    let os = match os_name {
        Some(n) => {
            if n.as_str().unicode_len() > 0 {
                n
            } else {
                String::from_str("Unknown System")
            }
        },
        None => String::from_str("Unknown System"),
    };
    let (cpu_model, cpu_freq_mhz) = match cpu {
        Some(c) => (c.model, c.freq_mhz),
        None => (String::new(), 0u64),
    };
    SystemInfo {
        os_name: os,
        motherboard: motherboard_label(vendor.as_str(), model.as_str()),
        bios,
        cpu_model,
        cpu_freq_mhz,
        ram_total_bytes,
        ram_type: ram_type(ram),
        disks: filter_disks(disks),
    }
}

/// Produces the inventory record for the local machine. The hardware
/// facts come from the OS inventory facility and depend on the machine;
/// the board and RAM probe outcomes are handed in by the caller. The
/// fields computed from those arguments are pinned exactly, and the
/// record is fully populated whatever any probe returned.
pub fn collect_inventory(board: &BoardQuery, ram: &RamQuery) -> (r: SystemInfo)
    ensures
        complete(r@),
        r@.ram_type == ram_type_spec(ram@),
        r@.motherboard == board_vendor_spec(board@) + " "@ + board_model_spec(board@),
        r@.bios == board_bios_spec(board@),
{
    let mut sys = system_new_all();
    system_refresh_all(&mut sys);
    let os_name = query_os_name();
    let cpu = match system_cpu0(&sys) {
        Some(c) => Some(CpuSample { model: cpu_brand(c), freq_mhz: cpu_frequency(c) }),
        None => None,
    };
    let ram_total = system_total_memory(&sys);
    let disks = disk_records();
    let ghost g_os = opt_view(os_name);
    let ghost g_cpu = opt_cpu_view(cpu);
    let ghost g_disks = disks@.map_values(|d: DiskRecord| d@);
    let r = assemble(os_name, board, cpu, ram_total, ram, &disks);
    proof {
        lemma_total_absorption(g_os, board@, g_cpu, ram_total, ram@, g_disks);
    }
    r
}

} // verus!
