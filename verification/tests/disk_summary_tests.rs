use telemetry::disk::{
    build_disk_record, classify_drive_type, drive_letters, enumerate_disks, get_disk_performance,
    get_disk_stats_wmi, get_disk_type, has_pagefile_on_drive, is_system_drive, list_partitions,
    select_disk_counters, DriveProbe, DriveType, DISK_PERFORMANCE,
};
use telemetry::rate::{compute_deltas, core_rate, RawCounters};
use telemetry::summary::{get_system_info, SummaryInputs};

fn probe(drive_type: u32, space: Option<(u64, u64)>, pagefile: bool) -> DriveProbe {
    DriveProbe {
        drive_type,
        space,
        file_system: Some("NTFS".to_string()),
        root_files: if pagefile { vec!["pagefile.sys".to_string()] } else { Vec::new() },
        device_counters: None,
        provider_counters: None,
    }
}

#[test]
fn drive_letters_follow_the_mask() {
    // Bits 2 and 3 set: drives C and D.
    assert_eq!(drive_letters(0b1100), vec![b'C', b'D']);
    assert_eq!(drive_letters(0), Vec::<u8>::new());
    assert_eq!(drive_letters(1), vec![b'A']);
}

#[test]
fn two_drives_scenario() {
    // C: 500 GB of 1 TB used and holding the page file; D: fully free.
    let letters = vec![b'C', b'D'];
    let probes = vec![
        probe(3, Some((1_000_000_000_000, 500_000_000_000)), true),
        probe(3, Some((2_000_000_000_000, 2_000_000_000_000)), false),
    ];
    let disks = enumerate_disks(&letters, &probes);
    assert_eq!(disks.len(), 2);
    assert_eq!(disks[0].name, "C:\\");
    assert_eq!(disks[0].percent_used_hundredths, 5000);
    assert!(disks[0].is_system);
    assert!(disks[0].has_pagefile);
    assert_eq!(disks[0].used_bytes + disks[0].free_bytes, disks[0].total_bytes);
    assert_eq!(disks[1].name, "D:\\");
    assert_eq!(disks[1].percent_used_hundredths, 0);
    assert!(!disks[1].is_system);
    assert!(!disks[1].has_pagefile);
    assert_eq!(disks[1].used_bytes + disks[1].free_bytes, disks[1].total_bytes);
}

#[test]
fn low_drive_types_are_skipped() {
    let letters = vec![b'A', b'C'];
    let probes = vec![probe(0, Some((10, 5)), false), probe(3, Some((10, 5)), false)];
    let disks = enumerate_disks(&letters, &probes);
    assert_eq!(disks.len(), 1);
    assert_eq!(disks[0].name, "C:\\");
}

#[test]
fn space_conservation_on_every_enumerated_disk() {
    let letters = vec![b'C', b'D', b'E'];
    let probes = vec![
        probe(3, Some((1000, 250)), false),
        probe(2, Some((7, 7)), false),
        probe(5, None, false),
    ];
    for d in enumerate_disks(&letters, &probes) {
        assert_eq!(d.used_bytes + d.free_bytes, d.total_bytes);
    }
}

#[test]
fn partitions_skip_failed_space_queries() {
    let letters = vec![b'C', b'D'];
    let probes = vec![probe(3, Some((1000, 400)), false), probe(3, None, false)];
    let parts = list_partitions(&letters, &probes);
    assert_eq!(parts.len(), 1);
    assert_eq!(parts[0].name, "C:\\");
    assert_eq!(parts[0].used_bytes, 600);
    assert_eq!(parts[0].percent_used_hundredths, 6000);
}

#[test]
fn build_disk_record_defaults() {
    let p = DriveProbe {
        drive_type: 4,
        space: None,
        file_system: None,
        root_files: Vec::new(),
        device_counters: None,
        provider_counters: None,
    };
    let d = build_disk_record(b'N', &p).unwrap();
    assert_eq!(d.file_system, "Unknown");
    assert_eq!(d.disk_type, "Network");
    assert_eq!(d.total_bytes, 0);
    assert_eq!(d.percent_used_hundredths, 0);
    assert!(build_disk_record(b'X', &probe(1, None, false)).is_none());
}

#[test]
fn system_drive_convention() {
    assert!(is_system_drive("C:\\"));
    assert!(is_system_drive("c:\\tmp"));
    assert!(!is_system_drive("D:\\"));
    assert!(!is_system_drive("C:"));
}

#[test]
fn pagefile_detection() {
    assert!(has_pagefile_on_drive(&vec!["swap".to_string(), "pagefile.sys".to_string()]));
    assert!(!has_pagefile_on_drive(&vec!["swapfile.sys".to_string()]));
    assert!(!has_pagefile_on_drive(&Vec::new()));
}

#[test]
fn drive_type_classification() {
    assert_eq!(get_disk_type(2), "Removable");
    assert_eq!(get_disk_type(3), "Fixed");
    assert_eq!(get_disk_type(4), "Network");
    assert_eq!(get_disk_type(5), "Optical");
    assert_eq!(get_disk_type(6), "RAM");
    assert_eq!(get_disk_type(0), "Unknown");
    assert!(classify_drive_type(3) == DriveType::Fixed);
    assert!(classify_drive_type(9) == DriveType::Unknown);
}

#[test]
fn device_counters_validated_at_decode() {
    let perf = DISK_PERFORMANCE {
        BytesRead: 4096,
        BytesWritten: -1,
        ReadTime: 0,
        WriteTime: 0,
        IdleTime: 0,
        ReadCount: 0,
        WriteCount: 0,
        QueueDepth: 0,
        SplitCount: 0,
        QueryTime: 0,
        StorageDeviceNumber: 0,
        StorageManagerName: [0u16; 8],
    };
    assert_eq!(get_disk_performance(Some(&perf)), Some((4096, 0)));
    assert_eq!(get_disk_performance(None), None);
}

#[test]
fn disk_stats_need_activity() {
    assert_eq!(get_disk_stats_wmi(Some((10, 20))), (10, 20, 30));
    assert_eq!(get_disk_stats_wmi(Some((0, 0))), (0, 0, 0));
    assert_eq!(get_disk_stats_wmi(None), (0, 0, 0));
}

#[test]
fn provider_order_is_strict() {
    // The device query wins where it reported activity.
    assert_eq!(select_disk_counters(Some((10, 0)), Some((1, 2))), (10, 0, 10));
    // An idle or absent device query falls back to the secondary provider.
    assert_eq!(select_disk_counters(Some((0, 0)), Some((1, 2))), (1, 2, 3));
    assert_eq!(select_disk_counters(None, Some((5, 6))), (5, 6, 11));
    assert_eq!(select_disk_counters(None, None), (0, 0, 0));
}

#[test]
fn core_rate_window() {
    assert_eq!(core_rate(100, 600, 1000), 5000);
    assert_eq!(core_rate(0, 2000, 1000), 10000);
    assert_eq!(core_rate(600, 100, 1000), 0);
    assert_eq!(core_rate(5, 10, 0), 0);
}

#[test]
fn deltas_are_clamped_and_averaged() {
    let a = RawCounters { core_busy: vec![100, 200, 50] };
    let b = RawCounters { core_busy: vec![600, 100, 5000] };
    let m = compute_deltas(&a, &b, 1000);
    assert_eq!(m.per_core_hundredths, vec![5000, 0, 10000]);
    for r in &m.per_core_hundredths {
        assert!(*r <= 10000);
    }
    assert_eq!(m.total_hundredths, 5000);
}

#[test]
fn empty_sample_pair() {
    let a = RawCounters { core_busy: Vec::new() };
    let b = RawCounters { core_busy: Vec::new() };
    let m = compute_deltas(&a, &b, 1000);
    assert!(m.per_core_hundredths.is_empty());
    assert_eq!(m.total_hundredths, 0);
}

fn inputs() -> SummaryInputs {
    SummaryInputs {
        rates: compute_deltas(
            &RawCounters { core_busy: vec![0, 0] },
            &RawCounters { core_busy: vec![500, 500] },
            1000,
        ),
        memory_total: 8_589_934_592,
        memory_free: 2_147_483_648,
        uptime_ms: 3_725_000,
        now_secs: 1_000_000,
        process_count: 42,
        cpu_base_speed_mhz: 3600,
        cpu_logical_processors: 2,
        cpu_vendor: "GenuineIntel".to_string(),
        cpu_brand: "Example CPU".to_string(),
        cpu_physical_cores: 1,
        disks: Vec::new(),
        os_name: "Windows".to_string(),
        os_version: "10.0.19045".to_string(),
        os_build: "Windows".to_string(),
        hostname: "host01".to_string(),
    }
}

#[test]
fn summary_memory_is_conserved() {
    let s = get_system_info(inputs());
    assert_eq!(s.memory_total_mb, 8192);
    assert_eq!(s.memory_free_mb, 2048);
    assert_eq!(s.memory_used_mb, 6144);
    assert_eq!(s.memory_used_mb + s.memory_free_mb, s.memory_total_mb);
    assert_eq!(s.memory_percent, "75.0%");
}

#[test]
fn summary_uptime_and_boot() {
    let s = get_system_info(inputs());
    assert_eq!(s.uptime_secs, 3725);
    assert_eq!(s.uptime, "1h 2m");
    assert_eq!(s.boot_time, 1_000_000 - 3725);
    assert_eq!(s.cpu_total, "50.0%");
    assert_eq!(s.cpu_per_core, vec![5000, 5000]);
    assert_eq!(s.hostname, "host01");
    assert_eq!(s.process_count, 42);
}
