//! Logical-disk aggregation.
//!
//! Drives are enumerated from the 26-bit drive mask the operating system
//! reports; each present drive is classified, drives below the minimum type
//! threshold are skipped, and the remaining ones are turned into records that
//! combine space figures, the file-system name, path conventions, and I/O
//! counters chosen from providers in strict priority order (the privileged
//! per-device query first, a secondary aggregate provider as fallback, first
//! non-empty result wins).

use vstd::prelude::*;

use crate::textfmt::push_char;

verus! {

/// One logical volume of the snapshot.
pub struct DiskInfo {
    pub name: String,
    pub total_bytes: u64,
    pub free_bytes: u64,
    pub used_bytes: u64,
    /// Hundredths of a percent (10000 stands for 100%).
    pub percent_used_hundredths: u32,
    pub file_system: String,
    pub is_system: bool,
    pub has_pagefile: bool,
    pub disk_type: String,
    pub read_bytes: u64,
    pub write_bytes: u64,
    pub transfer_bytes: u64,
}

/// One partition, as the partition listing reports it.
pub struct PartitionInfo {
    pub name: String,
    pub total_bytes: u64,
    pub free_bytes: u64,
    pub used_bytes: u64,
    /// Hundredths of a percent (10000 stands for 100%).
    pub percent_used_hundredths: u32,
}

/// The fixed layout of the per-device performance counters block, as the
/// operating system's device-level query fills it.
#[allow(non_camel_case_types)]
#[allow(non_snake_case)]
pub struct DISK_PERFORMANCE {
    pub BytesRead: i64,
    pub BytesWritten: i64,
    pub ReadTime: i64,
    pub WriteTime: i64,
    pub IdleTime: i64,
    pub ReadCount: u32,
    pub WriteCount: u32,
    pub QueueDepth: u32,
    pub SplitCount: u32,
    pub QueryTime: i64,
    pub StorageDeviceNumber: u32,
    pub StorageManagerName: [u16; 8],
}

/// Everything the per-drive queries report about one logical drive. The
/// surrounding glue fills one of these per present drive; the fields are
/// plain values so the aggregation over them is verified.
pub struct DriveProbe {
    /// The drive-type classification number the operating system reports.
    pub drive_type: u32,
    /// Total and free bytes, where the space query succeeded.
    pub space: Option<(u64, u64)>,
    /// File-system name, where the volume-information query succeeded.
    pub file_system: Option<String>,
    /// Names of the entries at the volume root.
    pub root_files: Vec<String>,
    /// Read/written bytes from the privileged per-device query.
    pub device_counters: Option<(u64, u64)>,
    /// Read/written bytes from the secondary aggregate-metrics provider.
    pub provider_counters: Option<(u64, u64)>,
}

/// Drive-type classification.
#[derive(Clone, Copy, Debug, PartialEq, Eq, Structural)]
pub enum DriveType {
    Removable,
    Fixed,
    Network,
    Optical,
    RamDisk,
    Unknown,
}

/// The drive letters named by the 26-bit drive mask, in alphabetical order:
/// letter `A + i` is present exactly when bit `i` of the mask is set.
pub open spec fn spec_drive_letters_from(mask: u32, i: int) -> Seq<u8>
    decreases 26 - i,
{
    if i < 0 || i >= 26 {
        Seq::empty()
    } else {
        (if mask & (1u32 << i as u32) != 0 {
            seq![(65 + i) as u8]
        } else {
            Seq::empty()
        }) + spec_drive_letters_from(mask, i + 1)
    }
}

/// Decodes the drive bitmask into the present drive letters.
pub fn drive_letters(mask: u32) -> (v: Vec<u8>)
    ensures
        v@ == spec_drive_letters_from(mask, 0),
        forall|j: int| 0 <= j < v@.len() ==> 65 <= #[trigger] v@[j] <= 90,
{
    let mut v: Vec<u8> = Vec::new();
    let mut i: u32 = 0;
    while i < 26
        invariant
            i <= 26,
            spec_drive_letters_from(mask, 0) =~= v@ + spec_drive_letters_from(mask, i as int),
            forall|j: int| 0 <= j < v@.len() ==> 65 <= #[trigger] v@[j] <= 90,
        decreases 26 - i,
    {
        if mask & (1u32 << i) != 0 {
            v.push((65 + i) as u8);
        }
        proof {
            assert(spec_drive_letters_from(mask, i as int) == (if mask & (1u32 << i) != 0 {
                seq![(65 + i) as u8]
            } else {
                Seq::<u8>::empty()
            }) + spec_drive_letters_from(mask, i as int + 1));
        }
        i = i + 1;
    }
    proof {
        assert(spec_drive_letters_from(mask, 26) =~= Seq::<u8>::empty());
        assert(v@ + Seq::<u8>::empty() =~= v@);
    }
    v
}

/// The root path spelled by a drive letter.
pub open spec fn spec_drive_path(letter: u8) -> Seq<char> {
    seq![letter as char, ':', '\\']
}

fn drive_path_string(letter: u8) -> (r: String)
    ensures
        r@ == spec_drive_path(letter),
{
    let mut s = String::new();
    push_char(&mut s, letter as char);
    push_char(&mut s, ':');
    push_char(&mut s, '\\');
    proof {
        assert(s@ =~= spec_drive_path(letter));
    }
    s
}

/// The path convention for the system volume: the root of drive C.
pub open spec fn spec_is_system_drive(s: Seq<char>) -> bool {
    s.len() >= 3 && (s[0] == 'C' || s[0] == 'c') && s[1] == ':' && s[2] == '\\'
}

/// Whether the path names the system volume, by path convention
/// (the root of drive C, either letter case).
pub fn is_system_drive(path: &str) -> (b: bool)
    ensures
        b == spec_is_system_drive(path@),
{
    let n = path.unicode_len();
    if n < 3 {
        return false;
    }
    let c0 = path.get_char(0);
    let c1 = path.get_char(1);
    let c2 = path.get_char(2);
    (c0 == 'C' || c0 == 'c') && c1 == ':' && c2 == '\\'
}

/// Some entry at the volume root is the well-known page-file name.
pub open spec fn spec_has_pagefile(files: Seq<String>) -> bool {
    exists|i: int| 0 <= i < files.len() && #[trigger] files[i]@ == "pagefile.sys"@
}

/// Whether the page file is present at the volume root, judged by the
/// well-known file name among the root entries.
pub fn has_pagefile_on_drive(root_files: &Vec<String>) -> (b: bool)
    ensures
        b == spec_has_pagefile(root_files@),
{
    let pagefile = String::from_str("pagefile.sys");
    let n = root_files.len();
    let mut i: usize = 0;
    while i < n
        invariant
            n == root_files@.len(),
            i <= n,
            pagefile@ == "pagefile.sys"@,
            forall|j: int| 0 <= j < i ==> #[trigger] root_files@[j]@ != "pagefile.sys"@,
        decreases n - i,
    {
        if *(&root_files[i]) == pagefile {
            return true;
        }
        i = i + 1;
    }
    false
}

/// The classification for a drive-type number the operating system reports.
pub open spec fn spec_classify_drive(t: u32) -> DriveType {
    if t == 2 {
        DriveType::Removable
    } else if t == 3 {
        DriveType::Fixed
    } else if t == 4 {
        DriveType::Network
    } else if t == 5 {
        DriveType::Optical
    } else if t == 6 {
        DriveType::RamDisk
    } else {
        DriveType::Unknown
    }
}

/// Classifies a raw drive-type number.
pub fn classify_drive_type(t: u32) -> (d: DriveType)
    ensures
        d == spec_classify_drive(t),
{
    if t == 2 {
        DriveType::Removable
    } else if t == 3 {
        DriveType::Fixed
    } else if t == 4 {
        DriveType::Network
    } else if t == 5 {
        DriveType::Optical
    } else if t == 6 {
        DriveType::RamDisk
    } else {
        DriveType::Unknown
    }
}

/// The label for a drive-type number.
pub open spec fn spec_disk_type_label(t: u32) -> Seq<char> {
    match spec_classify_drive(t) {
        DriveType::Removable => "Removable"@,
        DriveType::Fixed => "Fixed"@,
        DriveType::Network => "Network"@,
        DriveType::Optical => "Optical"@,
        DriveType::RamDisk => "RAM"@,
        DriveType::Unknown => "Unknown"@,
    }
}

/// The label for a raw drive-type number.
pub fn get_disk_type(drive_type: u32) -> (s: String)
    ensures
        s@ == spec_disk_type_label(drive_type),
{
    if drive_type == 2 {
        String::from_str("Removable")
    } else if drive_type == 3 {
        String::from_str("Fixed")
    } else if drive_type == 4 {
        String::from_str("Network")
    } else if drive_type == 5 {
        String::from_str("Optical")
    } else if drive_type == 6 {
        String::from_str("RAM")
    } else {
        String::from_str("Unknown")
    }
}

/// A device counter, clamped at zero: the counters block is validated at
/// decode time rather than trusted blindly, so a negative reading counts
/// as zero activity.
pub open spec fn spec_clamp_nonneg(x: i64) -> u64 {
    if x >= 0 {
        x as u64
    } else {
        0
    }
}

/// Extracts the read/written byte counters from a per-device performance
/// block, where the device query yielded one.
pub fn get_disk_performance(perf: Option<&DISK_PERFORMANCE>) -> (r: Option<(u64, u64)>)
    ensures
        match r {
            Some(c) => perf is Some && c.0 == spec_clamp_nonneg(perf->Some_0.BytesRead) && c.1
                == spec_clamp_nonneg(perf->Some_0.BytesWritten),
            None => perf is None,
        },
{
    match perf {
        Some(p) => {
            let read: u64 = if p.BytesRead >= 0 {
                p.BytesRead as u64
            } else {
                0
            };
            let written: u64 = if p.BytesWritten >= 0 {
                p.BytesWritten as u64
            } else {
                0
            };
            Some((read, written))
        },
        None => None,
    }
}

/// A sum of byte counters, saturating at the top of the range.
pub open spec fn spec_sat_add(a: u64, b: u64) -> u64 {
    if a + b <= u64::MAX {
        (a + b) as u64
    } else {
        u64::MAX
    }
}

fn sat_add(a: u64, b: u64) -> (r: u64)
    ensures
        r == spec_sat_add(a, b),
{
    if b <= u64::MAX - a {
        a + b
    } else {
        u64::MAX
    }
}

/// What the device-level statistics query contributes: its counters where it
/// reported any activity, zeros otherwise.
pub open spec fn spec_disk_stats(device: Option<(u64, u64)>) -> (u64, u64, u64) {
    match device {
        Some(c) => if c.0 > 0 || c.1 > 0 {
            (c.0, c.1, spec_sat_add(c.0, c.1))
        } else {
            (0, 0, 0)
        },
        None => (0, 0, 0),
    }
}

/// Read/written/transferred bytes from the privileged device query, or zeros
/// where that query is unavailable or reported no activity.
pub fn get_disk_stats_wmi(device: Option<(u64, u64)>) -> (t: (u64, u64, u64))
    ensures
        t == spec_disk_stats(device),
{
    match device {
        Some((r, w)) => {
            if r > 0 || w > 0 {
                let total = sat_add(r, w);
                (r, w, total)
            } else {
                (0, 0, 0)
            }
        },
        None => (0, 0, 0),
    }
}

/// The provider chain for disk I/O counters: the privileged device query
/// wins where it reported activity; otherwise the secondary provider's
/// figures are taken; otherwise zeros.
pub open spec fn spec_select_counters(
    device: Option<(u64, u64)>,
    provider: Option<(u64, u64)>,
) -> (u64, u64, u64) {
    if spec_disk_stats(device) != (0u64, 0u64, 0u64) {
        spec_disk_stats(device)
    } else {
        match provider {
            Some(c) => (c.0, c.1, spec_sat_add(c.0, c.1)),
            None => (0, 0, 0),
        }
    }
}

/// Picks the I/O counters from the providers in strict priority order;
/// the first non-empty result wins.
pub fn select_disk_counters(device: Option<(u64, u64)>, provider: Option<(u64, u64)>) -> (t: (
    u64,
    u64,
    u64,
))
    ensures
        t == spec_select_counters(device, provider),
{
    let primary = get_disk_stats_wmi(device);
    if primary.0 > 0 || primary.1 > 0 || primary.2 > 0 {
        primary
    } else {
        proof {
            assert(spec_disk_stats(device) == (0u64, 0u64, 0u64));
        }
        match provider {
            Some((r, w)) => {
                let total = sat_add(r, w);
                (r, w, total)
            },
            None => (0, 0, 0),
        }
    }
}

/// Used bytes: total minus free, clamped at zero.
pub open spec fn spec_used(total: u64, free: u64) -> u64 {
    if free <= total {
        (total - free) as u64
    } else {
        0
    }
}

/// Law: space is conserved. For every enumerated disk whose space figures
/// are consistent (free bytes not exceeding total bytes, which is how the
/// space query reports them), used plus free equals total.
pub proof fn lemma_disk_space_conserved(total: u64, free: u64)
    requires
        free <= total,
    ensures
        spec_used(total, free) + free == total,
{
}

/// The percentage `used` is of `total`, in hundredths of a percent
/// (floor; zero where `total` is zero).
pub open spec fn spec_percent_hundredths(used: u64, total: u64) -> u32 {
    if total == 0 {
        0u32
    } else {
        (used * 10000 / (total as int)) as u32
    }
}

/// Computes the used percentage in hundredths of a percent.
pub fn percent_used_hundredths(used: u64, total: u64) -> (p: u32)
    requires
        used <= total,
    ensures
        p == spec_percent_hundredths(used, total),
        p <= 10000,
{
    if total == 0 {
        0
    } else {
        let d: u128 = (used as u128) * 10000 / (total as u128);
        proof {
            assert((used as int) * 10000 / (total as int) <= 10000) by (nonlinear_arith)
                requires
                    0 <= used <= total,
                    0 < total,
            ;
        }
        d as u32
    }
}

/// The total and free bytes a probe reports (zeros where the space query
/// failed, as the enumeration treats them).
pub open spec fn probe_total(p: DriveProbe) -> u64 {
    match p.space {
        Some(s) => s.0,
        None => 0,
    }
}

pub open spec fn probe_free(p: DriveProbe) -> u64 {
    match p.space {
        Some(s) => s.1,
        None => 0,
    }
}

/// Field-by-field statement of the record built for one drive.
pub open spec fn disk_matches(letter: u8, p: DriveProbe, d: DiskInfo) -> bool {
    &&& d.name@ == spec_drive_path(letter)
    &&& d.total_bytes == probe_total(p)
    &&& d.free_bytes == probe_free(p)
    &&& d.used_bytes == spec_used(probe_total(p), probe_free(p))
    &&& d.percent_used_hundredths == spec_percent_hundredths(d.used_bytes, d.total_bytes)
    &&& d.file_system@ == (match p.file_system {
        Some(f) => f@,
        None => "Unknown"@,
    })
    &&& d.is_system == spec_is_system_drive(spec_drive_path(letter))
    &&& d.has_pagefile == spec_has_pagefile(p.root_files@)
    &&& d.disk_type@ == spec_disk_type_label(p.drive_type)
    &&& (d.read_bytes, d.write_bytes, d.transfer_bytes) == spec_select_counters(
        p.device_counters,
        p.provider_counters,
    )
}

/// Builds the record for one drive: `None` for drive types below the minimum
/// threshold (unknown or no root), a fully populated record otherwise. Space
/// is conserved whenever the reported free bytes do not exceed the total.
pub fn build_disk_record(letter: u8, probe: &DriveProbe) -> (r: Option<DiskInfo>)
    ensures
        match r {
            Some(d) => probe.drive_type >= 2 && disk_matches(letter, *probe, d) && (probe_free(
                *probe,
            ) <= probe_total(*probe) ==> d.used_bytes + d.free_bytes == d.total_bytes),
            None => probe.drive_type < 2,
        },
{
    if probe.drive_type < 2 {
        return None;
    }
    let name = drive_path_string(letter);
    let (total, free) = match probe.space {
        Some((t, f)) => (t, f),
        None => (0u64, 0u64),
    };
    let used = if free <= total {
        total - free
    } else {
        0
    };
    let percent = if used <= total {
        percent_used_hundredths(used, total)
    } else {
        0
    };
    let file_system = match &probe.file_system {
        Some(f) => f.clone(),
        None => String::from_str("Unknown"),
    };
    let is_system = is_system_drive(name.as_str());
    let has_pagefile = has_pagefile_on_drive(&probe.root_files);
    let disk_type = get_disk_type(probe.drive_type);
    let (read_bytes, write_bytes, transfer_bytes) = select_disk_counters(
        probe.device_counters,
        probe.provider_counters,
    );
    Some(
        DiskInfo {
            name,
            total_bytes: total,
            free_bytes: free,
            used_bytes: used,
            percent_used_hundredths: percent,
            file_system,
            is_system,
            has_pagefile,
            disk_type,
            read_bytes,
            write_bytes,
            transfer_bytes,
        },
    )
}

/// A drive that the disk enumeration includes.
pub open spec fn disk_included(p: DriveProbe) -> bool {
    p.drive_type >= 2
}

/// The indices of the included probes among the first `n`, in order.
pub open spec fn disk_sel_upto(probes: Seq<DriveProbe>, n: int) -> Seq<int>
    decreases n,
{
    if n <= 0 {
        Seq::empty()
    } else {
        disk_sel_upto(probes, n - 1) + (if disk_included(probes[n - 1]) {
            seq![n - 1]
        } else {
            Seq::empty()
        })
    }
}

pub proof fn lemma_disk_sel_range(probes: Seq<DriveProbe>, n: int)
    ensures
        forall|j: int|
            0 <= j < disk_sel_upto(probes, n).len() ==> 0 <= #[trigger] disk_sel_upto(probes, n)[j]
                < n,
    decreases n,
{
    if n > 0 {
        lemma_disk_sel_range(probes, n - 1);
        let prev = disk_sel_upto(probes, n - 1);
        let cur = disk_sel_upto(probes, n);
        assert forall|j: int| 0 <= j < cur.len() implies 0 <= #[trigger] cur[j] < n by {
            if j < prev.len() {
                assert(cur[j] == prev[j]);
            } else {
                assert(cur[j] == n - 1);
            }
        }
    }
}

/// One row of the disk enumeration: `d` is the record for the `j`-th
/// included probe among the first `n`.
pub open spec fn disk_row_ok(
    letters: Seq<u8>,
    probes: Seq<DriveProbe>,
    n: int,
    j: int,
    d: DiskInfo,
) -> bool {
    let k = disk_sel_upto(probes, n)[j];
    0 <= k < probes.len() && k < n && disk_matches(letters[k], probes[k], d)
}

/// Enumerates the disk records for the present drives: one record per drive
/// whose type passes the threshold, in drive-letter order, each pinned by
/// `disk_matches` to its probe.
pub fn enumerate_disks(letters: &Vec<u8>, probes: &Vec<DriveProbe>) -> (res: Vec<DiskInfo>)
    requires
        letters@.len() == probes@.len(),
    ensures
        res@.len() == disk_sel_upto(probes@, probes@.len() as int).len(),
        forall|j: int|
            0 <= j < res@.len() ==> disk_row_ok(
                letters@,
                probes@,
                probes@.len() as int,
                j,
                #[trigger] res@[j],
            ),
{
    let n = letters.len();
    let mut out: Vec<DiskInfo> = Vec::new();
    let mut i: usize = 0;
    while i < n
        invariant
            n == letters@.len(),
            n == probes@.len(),
            i <= n,
            out@.len() == disk_sel_upto(probes@, i as int).len(),
            forall|j: int|
                0 <= j < out@.len() ==> disk_row_ok(
                    letters@,
                    probes@,
                    i as int,
                    j,
                    #[trigger] out@[j],
                ),
        decreases n - i,
    {
        proof {
            lemma_disk_sel_range(probes@, i as int);
            assert(disk_sel_upto(probes@, i as int + 1) == disk_sel_upto(probes@, i as int) + (
            if disk_included(probes@[i as int]) {
                seq![i as int]
            } else {
                Seq::<int>::empty()
            }));
        }
        match build_disk_record(letters[i], &probes[i]) {
            Some(d) => {
                out.push(d);
                proof {
                    assert forall|j: int| 0 <= j < out@.len() implies disk_row_ok(
                        letters@,
                        probes@,
                        i as int + 1,
                        j,
                        #[trigger] out@[j],
                    ) by {
                        let sel = disk_sel_upto(probes@, i as int + 1);
                        if j < out@.len() - 1 {
                            assert(sel[j] == disk_sel_upto(probes@, i as int)[j]);
                        } else {
                            assert(sel[j] == i as int);
                        }
                    }
                }
            },
            None => {
                proof {
                    assert(disk_sel_upto(probes@, i as int + 1) =~= disk_sel_upto(
                        probes@,
                        i as int,
                    ));
                }
            },
        }
        i = i + 1;
    }
    proof {
        assert(i as int == probes@.len() as int);
    }
    out
}

/// A drive that the partition listing includes: type above the threshold and
/// a successful space query.
pub open spec fn partition_included(p: DriveProbe) -> bool {
    p.drive_type >= 2 && p.space is Some
}

/// The indices of the probes the partition listing includes among the first
/// `n`, in order.
pub open spec fn partition_sel_upto(probes: Seq<DriveProbe>, n: int) -> Seq<int>
    decreases n,
{
    if n <= 0 {
        Seq::empty()
    } else {
        partition_sel_upto(probes, n - 1) + (if partition_included(probes[n - 1]) {
            seq![n - 1]
        } else {
            Seq::empty()
        })
    }
}

pub proof fn lemma_partition_sel_range(probes: Seq<DriveProbe>, n: int)
    ensures
        forall|j: int|
            0 <= j < partition_sel_upto(probes, n).len() ==> 0 <= #[trigger] partition_sel_upto(
                probes,
                n,
            )[j] < n,
    decreases n,
{
    if n > 0 {
        lemma_partition_sel_range(probes, n - 1);
        let prev = partition_sel_upto(probes, n - 1);
        let cur = partition_sel_upto(probes, n);
        assert forall|j: int| 0 <= j < cur.len() implies 0 <= #[trigger] cur[j] < n by {
            if j < prev.len() {
                assert(cur[j] == prev[j]);
            } else {
                assert(cur[j] == n - 1);
            }
        }
    }
}

/// One row of the partition listing: `r` is the record for the `j`-th
/// included probe among the first `n`.
pub open spec fn partition_row_ok(
    letters: Seq<u8>,
    probes: Seq<DriveProbe>,
    n: int,
    j: int,
    r: PartitionInfo,
) -> bool {
    let k = partition_sel_upto(probes, n)[j];
    0 <= k < probes.len() && k < n && partition_matches(letters[k], probes[k], r)
}

/// Field-by-field statement of the partition record built for one drive.
pub open spec fn partition_matches(letter: u8, p: DriveProbe, r: PartitionInfo) -> bool {
    &&& r.name@ == spec_drive_path(letter)
    &&& r.total_bytes == probe_total(p)
    &&& r.free_bytes == probe_free(p)
    &&& r.used_bytes == spec_used(probe_total(p), probe_free(p))
    &&& r.percent_used_hundredths == spec_percent_hundredths(r.used_bytes, r.total_bytes)
}

/// Lists the partitions: one record per present drive whose type passes the
/// threshold and whose space query succeeded, in drive-letter order.
pub fn list_partitions(letters: &Vec<u8>, probes: &Vec<DriveProbe>) -> (res: Vec<PartitionInfo>)
    requires
        letters@.len() == probes@.len(),
    ensures
        res@.len() == partition_sel_upto(probes@, probes@.len() as int).len(),
        forall|j: int|
            0 <= j < res@.len() ==> partition_row_ok(
                letters@,
                probes@,
                probes@.len() as int,
                j,
                #[trigger] res@[j],
            ),
{
    let n = letters.len();
    let mut out: Vec<PartitionInfo> = Vec::new();
    let mut i: usize = 0;
    while i < n
        invariant
            n == letters@.len(),
            n == probes@.len(),
            i <= n,
            out@.len() == partition_sel_upto(probes@, i as int).len(),
            forall|j: int|
                0 <= j < out@.len() ==> partition_row_ok(
                    letters@,
                    probes@,
                    i as int,
                    j,
                    #[trigger] out@[j],
                ),
        decreases n - i,
    {
        proof {
            lemma_partition_sel_range(probes@, i as int);
            assert(partition_sel_upto(probes@, i as int + 1) == partition_sel_upto(
                probes@,
                i as int,
            ) + (if partition_included(probes@[i as int]) {
                seq![i as int]
            } else {
                Seq::<int>::empty()
            }));
        }
        let included = probes[i].drive_type >= 2 && matches!(&probes[i].space, Some(_));
        if included {
            let name = drive_path_string(letters[i]);
            let (total, free) = match probes[i].space {
                Some((t, f)) => (t, f),
                None => (0u64, 0u64),
            };
            let used = if free <= total {
                total - free
            } else {
                0
            };
            let percent = percent_used_hundredths(used, total);
            out.push(
                PartitionInfo {
                    name,
                    total_bytes: total,
                    free_bytes: free,
                    used_bytes: used,
                    percent_used_hundredths: percent,
                },
            );
            proof {
                assert forall|j: int| 0 <= j < out@.len() implies partition_row_ok(
                    letters@,
                    probes@,
                    i as int + 1,
                    j,
                    #[trigger] out@[j],
                ) by {
                    let sel = partition_sel_upto(probes@, i as int + 1);
                    if j < out@.len() - 1 {
                        assert(sel[j] == partition_sel_upto(probes@, i as int)[j]);
                    } else {
                        assert(sel[j] == i as int);
                    }
                }
            }
        } else {
            proof {
                assert(partition_sel_upto(probes@, i as int + 1) =~= partition_sel_upto(
                    probes@,
                    i as int,
                ));
            }
        }
        i = i + 1;
    }
    proof {
        assert(i as int == probes@.len() as int);
    }
    out
}

} // verus!
