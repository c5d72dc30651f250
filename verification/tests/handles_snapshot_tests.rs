use telemetry::fsinfo::file_record_from_find;
use telemetry::handles::{
    get_handles_for_process, get_process_handles_and_resources, grow_plan, initial_plan,
    list_process_handles, GrowthStep, HandleTableOutcome, SYSTEM_HANDLE,
};
use telemetry::snapshot::{
    new_request, next_action, privilege_gate, step, GateDecision, SnapshotAction, SnapshotEvent,
    SnapshotPhase,
};
use telemetry::CollectError;

fn handle(pid: u32, type_number: u8, value: u16, access: u32) -> SYSTEM_HANDLE {
    SYSTEM_HANDLE {
        ProcessId: pid,
        ObjectTypeNumber: type_number,
        Flags: 0,
        Handle: value,
        Object: 0,
        GrantedAccess: access,
    }
}

#[test]
fn growth_doubles_until_the_bound() {
    let mut plan = initial_plan();
    assert_eq!(plan.buffer_bytes, 0x10000);
    assert_eq!(plan.attempts, 0);
    let mut grows = 0;
    loop {
        match grow_plan(&plan) {
            GrowthStep::Retry(next) => {
                assert_eq!(next.buffer_bytes, plan.buffer_bytes * 2);
                assert_eq!(next.attempts, plan.attempts + 1);
                plan = next;
                grows += 1;
            }
            GrowthStep::GiveUp => break,
        }
    }
    // The protocol terminated within its bound even though every query
    // reported the buffer too small.
    assert_eq!(grows, 16);
    assert_eq!(plan.buffer_bytes, 0x10000 << 16);
}

#[test]
fn handle_table_filtered_by_process() {
    let table = vec![handle(5, 28, 0x1A, 7), handle(6, 30, 0x20, 1), handle(5, 30, 0x24, 3)];
    let list = get_handles_for_process(&table, 5);
    assert_eq!(list.len(), 2);
    assert_eq!(list[0].handle, 0x1A);
    assert_eq!(list[0].object_type, "28");
    assert_eq!(list[0].name, "");
    assert_eq!(list[0].access, 7);
    assert_eq!(list[1].handle, 0x24);
    assert!(get_handles_for_process(&table, 9).is_empty());
}

#[test]
fn open_resources_are_classified() {
    let table = vec![
        handle(5, 0x1C, 0x1A, 0),
        handle(5, 0x1E, 0xB, 0),
        handle(5, 0x1D, 0xC, 0),
        handle(5, 0x1B, 0xD, 0),
        handle(5, 0x1A, 0xE, 0),
        handle(5, 0x42, 0xF, 0),
        handle(7, 0x1C, 0x99, 0),
    ];
    let (count, resources) = get_process_handles_and_resources(Some(&table), 5);
    assert_eq!(count, Some(6));
    let lines = resources.unwrap();
    assert_eq!(lines[0], "File: Handle=0x1A");
    assert_eq!(lines[1], "Mutex: Handle=0xB");
    assert_eq!(lines[2], "Semaphore: Handle=0xC");
    assert_eq!(lines[3], "Pipe: Handle=0xD");
    assert_eq!(lines[4], "Socket: Handle=0xE");
    assert_eq!(lines[5], "Other: Handle=0xF");
}

#[test]
fn failed_table_query_reports_nothing() {
    let (count, resources) = get_process_handles_and_resources(None, 5);
    assert!(count.is_none());
    assert!(resources.is_none());
}

#[test]
fn handle_endpoint_outcomes() {
    let table = vec![handle(5, 28, 0x1A, 7)];
    let ok = list_process_handles(true, &HandleTableOutcome::Table(table), 5).unwrap();
    assert_eq!(ok.len(), 1);
    assert_eq!(ok[0].object_type, "28");
    let refused = list_process_handles(false, &HandleTableOutcome::Failed, 5);
    assert!(matches!(refused, Err(CollectError::Unauthorized)));
    let overflow = list_process_handles(true, &HandleTableOutcome::Exhausted, 5);
    assert!(matches!(overflow, Err(CollectError::QueryOverflow)));
    let failed = list_process_handles(true, &HandleTableOutcome::Failed, 5);
    assert!(matches!(failed, Ok(v) if v.is_empty()));
}

#[test]
fn gate_decision() {
    assert!(privilege_gate(true) == GateDecision::Authorized);
    assert!(privilege_gate(false) == GateDecision::Unauthorized);
}

#[test]
fn refused_request_issues_no_query() {
    // The query-call counter stays at zero when the privilege check fails.
    let m = new_request();
    assert!(next_action(&m) == SnapshotAction::CheckPrivilege);
    assert_eq!(m.queries_issued, 0);
    let m = step(&m, SnapshotEvent::PrivilegeChecked(false));
    assert!(m.phase == SnapshotPhase::Refused);
    assert!(next_action(&m) == SnapshotAction::Refuse);
    assert_eq!(m.queries_issued, 0);
}

#[test]
fn authorized_request_runs_the_fixed_sequence() {
    let m = new_request();
    let m = step(&m, SnapshotEvent::PrivilegeChecked(true));
    assert!(next_action(&m) == SnapshotAction::TakeBaselineSample);
    let m = step(&m, SnapshotEvent::BaselineTaken);
    assert!(next_action(&m) == SnapshotAction::WaitInterval);
    let m = step(&m, SnapshotEvent::WaitElapsed);
    assert!(next_action(&m) == SnapshotAction::TakeSecondSample);
    let m = step(&m, SnapshotEvent::SecondTaken);
    let m = step(&m, SnapshotEvent::ProcessTableRead);
    let m = step(&m, SnapshotEvent::DetailsRead);
    let m = step(&m, SnapshotEvent::DrivesRead);
    let m = step(&m, SnapshotEvent::SummaryFactsRead);
    assert!(m.phase == SnapshotPhase::Done);
    assert!(next_action(&m) == SnapshotAction::Emit);
    assert_eq!(m.queries_issued, 6);
}

#[test]
fn file_records_from_raw_entries() {
    let f = file_record_from_find("notes.txt\0\0\0", 0x03, 0, 1234).unwrap();
    assert_eq!(f.name, "notes.txt");
    assert!(!f.is_dir);
    assert!(f.readonly);
    assert!(f.hidden);
    assert_eq!(f.size, 1234);
    let d = file_record_from_find("src\0", 0x10, 1, 2).unwrap();
    assert!(d.is_dir);
    assert_eq!(d.size, 0x1_0000_0002);
    assert!(file_record_from_find(".\0", 0, 0, 0).is_none());
    assert!(file_record_from_find("..", 0, 0, 0).is_none());
    assert!(file_record_from_find("\0\0", 0, 0, 0).is_none());
}
