use telemetry::process::{
    cpu_for_pid, format_process_username, get_process_io_counters, get_process_memory_info,
    get_process_priority, get_process_session_id, get_process_thread_count, list_processes,
    make_process_record, pid_buffer_next, IoCounters, ProcessMemoryCounters, ProcessProbe,
    ProcessTableOutcome,
};
use telemetry::thread::{
    filetime_to_ms, get_threads_for_process, thread_state_to_str, thread_wait_reason_to_str,
    FileTime, ThreadBasicFacts, ThreadEntry, ThreadProbe, ThreadRow,
};
use telemetry::CollectError;

fn bare_probe(pid: u32, name: &str) -> ProcessProbe {
    ProcessProbe {
        pid,
        name: name.to_string(),
        exe_path: None,
        status: "Running".to_string(),
        username: None,
        wow64: None,
        description: None,
        memory: None,
        io: None,
        handle_count: None,
        tasks_len: None,
        parent_pid: None,
        priority_raw: None,
        creation_time: None,
        command_line: None,
        environment: None,
        threads: Vec::new(),
        open_resources: None,
    }
}

#[test]
fn filetime_conversion() {
    assert_eq!(filetime_to_ms(FileTime { low: 20_000, high: 0 }), 2);
    assert_eq!(filetime_to_ms(FileTime { low: 0, high: 1 }), 429_496);
    assert_eq!(filetime_to_ms(FileTime { low: 0, high: 0 }), 0);
}

#[test]
fn thread_state_labels() {
    assert_eq!(thread_state_to_str(0), "Initialized");
    assert_eq!(thread_state_to_str(2), "Running");
    assert_eq!(thread_state_to_str(5), "Waiting");
    assert_eq!(thread_state_to_str(8), "GateWait");
    assert_eq!(thread_state_to_str(99), "Unknown");
}

#[test]
fn wait_reason_labels() {
    assert_eq!(thread_wait_reason_to_str(0), "Executive");
    assert_eq!(thread_wait_reason_to_str(6), "UserRequest");
    assert_eq!(thread_wait_reason_to_str(21), "Spare2");
    assert_eq!(thread_wait_reason_to_str(36), "WrRundown");
    assert_eq!(thread_wait_reason_to_str(37), "Unknown");
}

fn row(tid: u32, owner: u32, probe: Option<ThreadProbe>) -> ThreadRow {
    ThreadRow {
        entry: ThreadEntry { thread_id: tid, owner_pid: owner, base_priority: 8, delta_priority: 0 },
        probe,
    }
}

#[test]
fn threads_filtered_by_owner() {
    let rows = vec![
        row(11, 7, None),
        row(12, 8, None),
        row(
            13,
            7,
            Some(ThreadProbe {
                times: Some((FileTime { low: 20_000, high: 0 }, FileTime { low: 40_000, high: 0 })),
                basic: Some(ThreadBasicFacts { start_address: 0xdead, state: 5, wait_reason: 6 }),
            }),
        ),
    ];
    let threads = get_threads_for_process(&rows, 7);
    assert_eq!(threads.len(), 2);
    assert_eq!(threads[0].tid, 11);
    assert_eq!(threads[0].state, "Unknown");
    assert_eq!(threads[0].kernel_time_ms, None);
    assert_eq!(threads[1].tid, 13);
    assert_eq!(threads[1].state, "Waiting");
    assert_eq!(threads[1].wait_reason, "UserRequest");
    assert_eq!(threads[1].start_address, 0xdead);
    assert_eq!(threads[1].kernel_time_ms, Some(2));
    assert_eq!(threads[1].user_time_ms, Some(4));
}

#[test]
fn io_and_memory_mappings() {
    let io = IoCounters {
        read_operation_count: 3,
        write_operation_count: 4,
        other_operation_count: 5,
        read_transfer_count: 100,
        write_transfer_count: 200,
        other_transfer_count: 300,
    };
    assert_eq!(get_process_io_counters(Some(&io)), (Some(100), Some(200), Some(3), Some(4)));
    assert_eq!(get_process_io_counters(None), (None, None, None, None));
    let mem = ProcessMemoryCounters {
        page_fault_count: 9,
        peak_working_set: 4096 * 1024,
        working_set: 2048 * 1024,
        quota_peak_paged_pool: 0,
        quota_paged_pool: 0,
        quota_peak_non_paged_pool: 0,
        quota_non_paged_pool: 0,
        pagefile_usage: 1024 * 1024,
        peak_pagefile_usage: 0,
    };
    assert_eq!(get_process_memory_info(Some(&mem)), (9, 4096));
    assert_eq!(get_process_memory_info(None), (0, 0));
}

#[test]
fn small_decisions() {
    assert_eq!(get_process_thread_count(Some(5), 2), Some(5));
    assert_eq!(get_process_thread_count(Some(0), 2), Some(2));
    assert_eq!(get_process_thread_count(None, 2), Some(2));
    assert_eq!(get_process_priority(Some(32)), Some(32));
    assert_eq!(get_process_priority(Some(0)), None);
    assert_eq!(get_process_priority(None), None);
    assert_eq!(get_process_session_id(42), None);
    assert_eq!(format_process_username("", "alice"), "alice");
    assert_eq!(format_process_username("HOST", "alice"), "HOST\\alice");
}

#[test]
fn cpu_lookup_takes_first_match() {
    let entries = vec![(1u32, 100u32), (2, 200), (2, 999)];
    assert_eq!(cpu_for_pid(&entries, 2), 200);
    assert_eq!(cpu_for_pid(&entries, 3), 0);
    assert_eq!(cpu_for_pid(&Vec::new(), 1), 0);
}

#[test]
fn record_assembly() {
    let mut probe = bare_probe(42, "svchost.exe");
    probe.exe_path = Some("C:\\Windows\\svchost.exe".to_string());
    probe.wow64 = Some(false);
    probe.memory = Some(ProcessMemoryCounters {
        page_fault_count: 10,
        peak_working_set: 2048 * 1024,
        working_set: 1024 * 1024,
        quota_peak_paged_pool: 0,
        quota_paged_pool: 0,
        quota_peak_non_paged_pool: 0,
        quota_non_paged_pool: 0,
        pagefile_usage: 512 * 1024,
        peak_pagefile_usage: 0,
    });
    probe.io = Some(IoCounters {
        read_operation_count: 1,
        write_operation_count: 2,
        other_operation_count: 0,
        read_transfer_count: 100,
        write_transfer_count: 200,
        other_transfer_count: 0,
    });
    probe.handle_count = Some(33);
    probe.parent_pid = Some(4);
    probe.priority_raw = Some(32);
    probe.creation_time = Some(1000);
    probe.command_line = Some("svchost -k netsvcs".to_string());
    probe.environment = Some(vec!["OS=Windows_NT".to_string()]);
    let rec = make_process_record(&probe, 1234, 8_388_608);
    assert_eq!(rec.pid, 42);
    assert_eq!(rec.name, "svchost.exe");
    assert_eq!(rec.exe_path.as_deref(), Some("C:\\Windows\\svchost.exe"));
    assert_eq!(rec.status, "Running");
    assert_eq!(rec.username, "?");
    assert_eq!(rec.cpu_hundredths, 1234);
    assert_eq!(rec.memory_kb, 1024);
    assert_eq!(rec.working_set_kb, 1024);
    assert_eq!(rec.peak_working_set_kb, 2048);
    assert_eq!(rec.pagefile_kb, 512);
    assert_eq!(rec.page_faults, 10);
    // 1024 KB of 8388608 KB: 1.22 hundredths of a percent, floored.
    assert_eq!(rec.memory_percent_hundredths, 1);
    assert_eq!(rec.arch, "x64");
    assert_eq!(rec.description, "");
    assert_eq!(rec.io_read_bytes, Some(100));
    assert_eq!(rec.io_write_bytes, Some(200));
    assert_eq!(rec.io_read_ops, Some(1));
    assert_eq!(rec.io_write_ops, Some(2));
    assert_eq!(rec.handle_count, Some(33));
    assert_eq!(rec.thread_count, Some(0));
    assert_eq!(rec.parent_pid, Some(4));
    assert_eq!(rec.priority, Some(32));
    assert_eq!(rec.creation_time, Some(1000));
    assert_eq!(rec.session_id, None);
    assert_eq!(rec.command_line.as_deref(), Some("svchost -k netsvcs"));
    assert_eq!(rec.environment.as_ref().unwrap(), &vec!["OS=Windows_NT".to_string()]);
    assert_eq!(rec.open_resources.as_ref().unwrap().len(), 0);
}

#[test]
fn pid_buffer_grows_only_when_full() {
    // A full buffer means more identifiers may exist: double and retry.
    assert_eq!(pid_buffer_next(1024, 1024), Some(2048));
    assert_eq!(pid_buffer_next(1024, 1023), None);
    assert_eq!(pid_buffer_next(1024, 0), None);
}

#[test]
fn vanished_process_is_skipped() {
    // Identifier 2 was enumerated but exited before the per-field pass: it
    // resolves to no probe and is skipped without failing the snapshot.
    let table = ProcessTableOutcome::Table(vec![0u32, 1, 2, 3]);
    let probes = vec![bare_probe(1, "one.exe"), bare_probe(3, "three.exe")];
    let r = list_processes(true, &table, &probes, &Vec::new(), 1024).unwrap();
    assert_eq!(r.len(), 2);
    assert_eq!(r[0].pid, 1);
    assert_eq!(r[0].name, "one.exe");
    assert_eq!(r[1].pid, 3);
    assert_eq!(r[1].name, "three.exe");
}

#[test]
fn empty_process_table_is_success() {
    let table = ProcessTableOutcome::Table(Vec::new());
    let r = list_processes(true, &table, &Vec::new(), &Vec::new(), 1024);
    assert!(matches!(r, Ok(v) if v.is_empty()));
}

#[test]
fn failed_table_query_is_no_processes() {
    let r = list_processes(true, &ProcessTableOutcome::QueryFailed, &Vec::new(), &Vec::new(), 1024);
    assert!(matches!(r, Ok(v) if v.is_empty()));
}

#[test]
fn unavailable_enumeration_is_fatal() {
    let r = list_processes(true, &ProcessTableOutcome::Unavailable, &Vec::new(), &Vec::new(), 1024);
    assert!(matches!(r, Err(CollectError::Fatal)));
}

#[test]
fn unauthorized_refuses_the_pass() {
    let table = ProcessTableOutcome::Table(vec![1u32]);
    let probes = vec![bare_probe(1, "one.exe")];
    let r = list_processes(false, &table, &probes, &Vec::new(), 1024);
    assert!(matches!(r, Err(CollectError::Unauthorized)));
}
