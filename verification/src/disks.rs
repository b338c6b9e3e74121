//! Disk enumeration records and their filtering: zero-capacity mount
//! entries are excluded, capacities are floor-divided to whole
//! gibibytes, and relative order is retained.

use vstd::prelude::*;
use vstd::string::*;

verus! {

/// Bytes in one gibibyte, the unit disk and RAM totals are reported in.
pub const BYTES_PER_GB: u64 = 0x4000_0000;

/// One mount entry as the OS reported it: device label, total capacity
/// in bytes, and the mount point (`None` when it could not be
/// represented as text).
pub struct DiskRecord {
    pub name: String,
    pub total_bytes: u64,
    pub mount_point: Option<String>,
}

/// One disk of the final inventory: capacity floor-divided to whole
/// gibibytes, an unrepresentable mount point degraded to the empty
/// string.
pub struct DiskInfo {
    pub name: String,
    pub total_gb: u64,
    pub mount_point: String,
}

pub struct DiskRecordView {
    pub name: Seq<char>,
    pub total_bytes: u64,
    pub mount_point: Option<Seq<char>>,
}

pub struct DiskInfoView {
    pub name: Seq<char>,
    pub total_gb: u64,
    pub mount_point: Seq<char>,
}

impl View for DiskRecord {
    type V = DiskRecordView;

    open spec fn view(&self) -> DiskRecordView {
        DiskRecordView {
            name: self.name@,
            total_bytes: self.total_bytes,
            mount_point: match self.mount_point {
                Some(m) => Some(m@),
                None => None,
            },
        }
    }
}

impl View for DiskInfo {
    type V = DiskInfoView;

    open spec fn view(&self) -> DiskInfoView {
        DiskInfoView {
            name: self.name@,
            total_gb: self.total_gb,
            mount_point: self.mount_point@,
        }
    }
}

/// Only entries with non-zero total capacity enter the inventory.
pub open spec fn keep_disk(r: DiskRecordView) -> bool {
    r.total_bytes > 0
}

pub open spec fn convert_disk_spec(r: DiskRecordView) -> DiskInfoView {
    DiskInfoView {
        name: r.name,
        total_gb: (r.total_bytes / BYTES_PER_GB) as u64,
        mount_point: match r.mount_point {
            Some(m) => m,
            None => Seq::empty(),
        },
    }
}

/// The inventory built from a raw mount list: kept entries converted,
/// zero-capacity entries dropped, relative order retained.
pub open spec fn filter_disks_spec(s: Seq<DiskRecordView>) -> Seq<DiskInfoView>
    decreases s.len(),
{
    if s.len() == 0 {
        Seq::empty()
    } else {
        let rest = filter_disks_spec(s.drop_first());
        if keep_disk(s.first()) {
            seq![convert_disk_spec(s.first())] + rest
        } else {
            rest
        }
    }
}

pub proof fn lemma_filter_disks_push(s: Seq<DiskRecordView>, x: DiskRecordView)
    ensures
        filter_disks_spec(s.push(x)) == if keep_disk(x) {
            filter_disks_spec(s) + seq![convert_disk_spec(x)]
        } else {
            filter_disks_spec(s)
        },
    decreases s.len(),
{
    if s.len() == 0 {
        assert(s.push(x).len() == 1);
        assert(s.push(x).first() == x);
        assert(s.push(x).drop_first() =~= Seq::<DiskRecordView>::empty());
        assert(filter_disks_spec(Seq::<DiskRecordView>::empty()) =~= Seq::<DiskInfoView>::empty());
        assert(filter_disks_spec(s) =~= Seq::<DiskInfoView>::empty());
        if keep_disk(x) {
            assert(filter_disks_spec(s.push(x)) =~= seq![convert_disk_spec(x)]
                + filter_disks_spec(s.push(x).drop_first()));
            assert(filter_disks_spec(s.push(x)) =~= filter_disks_spec(s) + seq![
                convert_disk_spec(x),
            ]);
        } else {
            assert(filter_disks_spec(s.push(x)) =~= filter_disks_spec(s));
        }
    } else {
        let rest = s.drop_first();
        assert(s.push(x).len() == s.len() + 1);
        assert(s.push(x).first() == s.first());
        assert(s.push(x).drop_first() =~= rest.push(x));
        lemma_filter_disks_push(rest, x);
        assert(filter_disks_spec(s.push(x)) == if keep_disk(s.first()) {
            seq![convert_disk_spec(s.first())] + filter_disks_spec(rest.push(x))
        } else {
            filter_disks_spec(rest.push(x))
        });
        assert(filter_disks_spec(s) == if keep_disk(s.first()) {
            seq![convert_disk_spec(s.first())] + filter_disks_spec(rest)
        } else {
            filter_disks_spec(rest)
        });
        if keep_disk(x) && keep_disk(s.first()) {
            assert(seq![convert_disk_spec(s.first())] + (filter_disks_spec(rest) + seq![
                convert_disk_spec(x),
            ]) =~= (seq![convert_disk_spec(s.first())] + filter_disks_spec(rest)) + seq![
                convert_disk_spec(x),
            ]);
        }
    }
}

/// Dropping a zero-capacity entry from the raw list leaves the inventory
/// unchanged: such entries are excluded, and the remaining entries keep
/// their relative order.
pub proof fn lemma_zero_capacity_excluded(s: Seq<DiskRecordView>, i: int)
    requires
        0 <= i < s.len(),
        s[i].total_bytes == 0,
    ensures
        filter_disks_spec(s) == filter_disks_spec(s.remove(i)),
    decreases s.len(),
{
    if i == 0 {
        assert(s.remove(0) =~= s.drop_first());
    } else {
        assert(s.remove(i).first() == s.first());
        assert(s.remove(i).drop_first() =~= s.drop_first().remove(i - 1));
        lemma_zero_capacity_excluded(s.drop_first(), i - 1);
    }
}

/// Every inventory entry comes from a raw entry with non-zero capacity.
pub proof fn lemma_filter_disks_sound(s: Seq<DiskRecordView>, j: int)
    requires
        0 <= j < filter_disks_spec(s).len(),
    ensures
        exists|i: int|
            0 <= i < s.len() && keep_disk(s[i]) && filter_disks_spec(s)[j] == convert_disk_spec(
                s[i],
            ),
    decreases s.len(),
{
    if s.len() > 0 {
        let rest = filter_disks_spec(s.drop_first());
        if keep_disk(s.first()) && j == 0 {
            assert(s[0] == s.first());
        } else {
            let j2 = if keep_disk(s.first()) {
                j - 1
            } else {
                j
            };
            lemma_filter_disks_sound(s.drop_first(), j2);
            let i2 = choose|i2: int|
                0 <= i2 < s.drop_first().len() && keep_disk(s.drop_first()[i2]) && rest[j2]
                    == convert_disk_spec(s.drop_first()[i2]);
            assert(s.drop_first()[i2] == s[i2 + 1]);
        }
    }
}

fn convert_disk(r: &DiskRecord) -> (d: DiskInfo)
    ensures
        d@ == convert_disk_spec(r@),
{
    DiskInfo {
        name: r.name.clone(),
        total_gb: r.total_bytes / BYTES_PER_GB,
        mount_point: match &r.mount_point {
            Some(m) => m.clone(),
            None => String::new(),
        },
    }
}

/// Builds the disk inventory from the raw mount list: entries whose
/// total capacity is zero are dropped, the rest are converted to whole
/// gibibytes, keeping the order the OS reported them in.
pub fn filter_disks(raw: &Vec<DiskRecord>) -> (r: Vec<DiskInfo>)
    ensures
        r@.map_values(|d: DiskInfo| d@) == filter_disks_spec(
            raw@.map_values(|d: DiskRecord| d@),
        ),
{
    let ghost all = raw@.map_values(|d: DiskRecord| d@);
    let mut out: Vec<DiskInfo> = Vec::new();
    let mut idx: usize = 0;
    while idx < raw.len()
        invariant
            idx <= raw.len(),
            all == raw@.map_values(|d: DiskRecord| d@),
            out@.map_values(|d: DiskInfo| d@) == filter_disks_spec(all.take(idx as int)),
        decreases raw.len() - idx,
    {
        let d = &raw[idx];
        proof {
            assert(all.take(idx as int + 1) =~= all.take(idx as int).push(d@));
            lemma_filter_disks_push(all.take(idx as int), d@);
        }
        if d.total_bytes > 0 {
            let converted = convert_disk(d);
            out.push(converted);
            proof {
                assert(out@.map_values(|x: DiskInfo| x@) =~= filter_disks_spec(all.take(
                    idx as int,
                )) + seq![convert_disk_spec(d@)]);
            }
        }
        idx = idx + 1;
    }
    proof {
        assert(all.take(raw.len() as int) =~= all);
    }
    out
}

} // verus!
