//! Per-process thread records.
//!
//! Threads come from a system-wide thread snapshot filtered by owning
//! process, because no per-process listing primitive is assumed available.
//! For each matching thread a secondary, more detailed query is attempted
//! best-effort; where it is unavailable or failed, the detailed fields
//! default to unknown rather than dropping the thread.

use vstd::prelude::*;

verus! {

/// One thread of a process.
pub struct ThreadInfo {
    pub tid: u32,
    pub base_priority: i32,
    pub delta_priority: i32,
    pub start_address: u64,
    pub state: String,
    pub wait_reason: String,
    pub context_switches: Option<u64>,
    pub user_time_ms: Option<u64>,
    pub kernel_time_ms: Option<u64>,
}

/// One entry of the system-wide thread snapshot.
pub struct ThreadEntry {
    pub thread_id: u32,
    pub owner_pid: u32,
    pub base_priority: i32,
    pub delta_priority: i32,
}

/// A kernel timestamp split into its two 32-bit halves, in units of
/// 100 nanoseconds.
#[derive(Clone, Copy)]
pub struct FileTime {
    pub low: u32,
    pub high: u32,
}

/// What the detailed per-thread queries reported.
pub struct ThreadBasicFacts {
    pub start_address: u64,
    pub state: u32,
    pub wait_reason: u32,
}

/// Best-effort per-thread detail: kernel and user times where the timing
/// query succeeded, and the basic-information block where that query did.
pub struct ThreadProbe {
    /// (kernel time, user time).
    pub times: Option<(FileTime, FileTime)>,
    pub basic: Option<ThreadBasicFacts>,
}

/// One row handed in by the snapshot walk: the snapshot entry, and the
/// detail probe where the thread could be opened.
pub struct ThreadRow {
    pub entry: ThreadEntry,
    pub probe: Option<ThreadProbe>,
}

/// The 64-bit value of a split kernel timestamp.
pub open spec fn spec_filetime_quad(ft: FileTime) -> int {
    ft.high * 0x1_0000_0000 + ft.low
}

/// A split kernel timestamp (100-nanosecond units), as milliseconds.
pub open spec fn spec_filetime_ms(ft: FileTime) -> u64 {
    (spec_filetime_quad(ft) / 10_000) as u64
}

/// Converts a split 100-nanosecond timestamp to milliseconds.
pub fn filetime_to_ms(ft: FileTime) -> (ms: u64)
    ensures
        ms == spec_filetime_ms(ft),
{
    let quad: u64 = (ft.high as u64) * 0x1_0000_0000 + (ft.low as u64);
    quad / 10_000
}

/// The label of a thread execution state.
pub open spec fn spec_thread_state(state: u32) -> Seq<char> {
    if state == 0 {
        "Initialized"@
    } else if state == 1 {
        "Ready"@
    } else if state == 2 {
        "Running"@
    } else if state == 3 {
        "Standby"@
    } else if state == 4 {
        "Terminated"@
    } else if state == 5 {
        "Waiting"@
    } else if state == 6 {
        "Transition"@
    } else if state == 7 {
        "DeferredReady"@
    } else if state == 8 {
        "GateWait"@
    } else {
        "Unknown"@
    }
}

/// Renders a thread execution state number as its label, with an unknown
/// fallback.
pub fn thread_state_to_str(state: u32) -> (s: String)
    ensures
        s@ == spec_thread_state(state),
{
    if state == 0 {
        String::from_str("Initialized")
    } else if state == 1 {
        String::from_str("Ready")
    } else if state == 2 {
        String::from_str("Running")
    } else if state == 3 {
        String::from_str("Standby")
    } else if state == 4 {
        String::from_str("Terminated")
    } else if state == 5 {
        String::from_str("Waiting")
    } else if state == 6 {
        String::from_str("Transition")
    } else if state == 7 {
        String::from_str("DeferredReady")
    } else if state == 8 {
        String::from_str("GateWait")
    } else {
        String::from_str("Unknown")
    }
}

/// The label of a thread wait reason.
pub open spec fn spec_wait_reason(reason: u32) -> Seq<char> {
    if reason == 0 {
        "Executive"@
    } else if reason == 1 {
        "FreePage"@
    } else if reason == 2 {
        "PageIn"@
    } else if reason == 3 {
        "PoolAllocation"@
    } else if reason == 4 {
        "DelayExecution"@
    } else if reason == 5 {
        "Suspended"@
    } else if reason == 6 {
        "UserRequest"@
    } else if reason == 7 {
        "WrExecutive"@
    } else if reason == 8 {
        "WrFreePage"@
    } else if reason == 9 {
        "WrPageIn"@
    } else if reason == 10 {
        "WrPoolAllocation"@
    } else if reason == 11 {
        "WrDelayExecution"@
    } else if reason == 12 {
        "WrSuspended"@
    } else if reason == 13 {
        "WrUserRequest"@
    } else if reason == 14 {
        "WrEventPair"@
    } else if reason == 15 {
        "WrQueue"@
    } else if reason == 16 {
        "WrLpcReceive"@
    } else if reason == 17 {
        "WrLpcReply"@
    } else if reason == 18 {
        "WrVirtualMemory"@
    } else if reason == 19 {
        "WrPageOut"@
    } else if reason == 20 {
        "WrRendezvous"@
    } else if reason == 21 {
        "Spare2"@
    } else if reason == 22 {
        "Spare3"@
    } else if reason == 23 {
        "Spare4"@
    } else if reason == 24 {
        "Spare5"@
    } else if reason == 25 {
        "WrCalloutStack"@
    } else if reason == 26 {
        "WrKernel"@
    } else if reason == 27 {
        "WrResource"@
    } else if reason == 28 {
        "WrPushLock"@
    } else if reason == 29 {
        "WrMutex"@
    } else if reason == 30 {
        "WrQuantumEnd"@
    } else if reason == 31 {
        "WrDispatchInt"@
    } else if reason == 32 {
        "WrPreempted"@
    } else if reason == 33 {
        "WrYieldExecution"@
    } else if reason == 34 {
        "WrFastMutex"@
    } else if reason == 35 {
        "WrGuardedMutex"@
    } else if reason == 36 {
        "WrRundown"@
    } else {
        "Unknown"@
    }
}

/// Renders a thread wait-reason number as its label, with an unknown
/// fallback.
pub fn thread_wait_reason_to_str(reason: u32) -> (s: String)
    ensures
        s@ == spec_wait_reason(reason),
{
    if reason == 0 {
        String::from_str("Executive")
    } else if reason == 1 {
        String::from_str("FreePage")
    } else if reason == 2 {
        String::from_str("PageIn")
    } else if reason == 3 {
        String::from_str("PoolAllocation")
    } else if reason == 4 {
        String::from_str("DelayExecution")
    } else if reason == 5 {
        String::from_str("Suspended")
    } else if reason == 6 {
        String::from_str("UserRequest")
    } else if reason == 7 {
        String::from_str("WrExecutive")
    } else if reason == 8 {
        String::from_str("WrFreePage")
    } else if reason == 9 {
        String::from_str("WrPageIn")
    } else if reason == 10 {
        String::from_str("WrPoolAllocation")
    } else if reason == 11 {
        String::from_str("WrDelayExecution")
    } else if reason == 12 {
        String::from_str("WrSuspended")
    } else if reason == 13 {
        String::from_str("WrUserRequest")
    } else if reason == 14 {
        String::from_str("WrEventPair")
    } else if reason == 15 {
        String::from_str("WrQueue")
    } else if reason == 16 {
        String::from_str("WrLpcReceive")
    } else if reason == 17 {
        String::from_str("WrLpcReply")
    } else if reason == 18 {
        String::from_str("WrVirtualMemory")
    } else if reason == 19 {
        String::from_str("WrPageOut")
    } else if reason == 20 {
        String::from_str("WrRendezvous")
    } else if reason == 21 {
        String::from_str("Spare2")
    } else if reason == 22 {
        String::from_str("Spare3")
    } else if reason == 23 {
        String::from_str("Spare4")
    } else if reason == 24 {
        String::from_str("Spare5")
    } else if reason == 25 {
        String::from_str("WrCalloutStack")
    } else if reason == 26 {
        String::from_str("WrKernel")
    } else if reason == 27 {
        String::from_str("WrResource")
    } else if reason == 28 {
        String::from_str("WrPushLock")
    } else if reason == 29 {
        String::from_str("WrMutex")
    } else if reason == 30 {
        String::from_str("WrQuantumEnd")
    } else if reason == 31 {
        String::from_str("WrDispatchInt")
    } else if reason == 32 {
        String::from_str("WrPreempted")
    } else if reason == 33 {
        String::from_str("WrYieldExecution")
    } else if reason == 34 {
        String::from_str("WrFastMutex")
    } else if reason == 35 {
        String::from_str("WrGuardedMutex")
    } else if reason == 36 {
        String::from_str("WrRundown")
    } else {
        String::from_str("Unknown")
    }
}

/// Field-by-field statement of the record built for one snapshot row:
/// identity and priorities from the snapshot entry; timing, state, wait
/// reason and start address from the detail probe where available, unknown
/// defaults where not. Context-switch counts are never available through
/// these queries.
pub open spec fn thread_record_matches(row: ThreadRow, t: ThreadInfo) -> bool {
    &&& t.tid == row.entry.thread_id
    &&& t.base_priority == row.entry.base_priority
    &&& t.delta_priority == row.entry.delta_priority
    &&& t.context_switches is None
    &&& match row.probe {
        None => {
            &&& t.start_address == 0
            &&& t.state@ == "Unknown"@
            &&& t.wait_reason@ == "Unknown"@
            &&& t.user_time_ms is None
            &&& t.kernel_time_ms is None
        },
        Some(p) => {
            &&& match p.times {
                Some(kt_ut) => t.kernel_time_ms == Some(spec_filetime_ms(kt_ut.0))
                    && t.user_time_ms == Some(spec_filetime_ms(kt_ut.1)),
                None => t.kernel_time_ms is None && t.user_time_ms is None,
            }
            &&& match p.basic {
                Some(b) => t.start_address == b.start_address && t.state@ == spec_thread_state(
                    b.state,
                ) && t.wait_reason@ == spec_wait_reason(b.wait_reason),
                None => t.start_address == 0 && t.state@ == "Unknown"@ && t.wait_reason@
                    == "Unknown"@,
            }
        },
    }
}

/// Builds the record for one thread-snapshot row.
pub fn thread_record(row: &ThreadRow) -> (t: ThreadInfo)
    ensures
        thread_record_matches(*row, t),
{
    let mut start_address: u64 = 0;
    let mut state = String::from_str("Unknown");
    let mut wait_reason = String::from_str("Unknown");
    let mut kernel_time_ms: Option<u64> = None;
    let mut user_time_ms: Option<u64> = None;
    match &row.probe {
        Some(p) => {
            match &p.times {
                Some((kt, ut)) => {
                    kernel_time_ms = Some(filetime_to_ms(*kt));
                    user_time_ms = Some(filetime_to_ms(*ut));
                },
                None => {},
            }
            match &p.basic {
                Some(b) => {
                    start_address = b.start_address;
                    state = thread_state_to_str(b.state);
                    wait_reason = thread_wait_reason_to_str(b.wait_reason);
                },
                None => {},
            }
        },
        None => {},
    }
    ThreadInfo {
        tid: row.entry.thread_id,
        base_priority: row.entry.base_priority,
        delta_priority: row.entry.delta_priority,
        start_address,
        state,
        wait_reason,
        context_switches: None,
        user_time_ms,
        kernel_time_ms,
    }
}

/// The indices among the first `n` snapshot rows whose thread belongs to
/// `pid`, in snapshot order.
pub open spec fn thread_sel_upto(rows: Seq<ThreadRow>, pid: u32, n: int) -> Seq<int>
    decreases n,
{
    if n <= 0 {
        Seq::empty()
    } else {
        thread_sel_upto(rows, pid, n - 1) + (if rows[n - 1].entry.owner_pid == pid {
            seq![n - 1]
        } else {
            Seq::empty()
        })
    }
}

/// One row of the filtered thread listing.
pub open spec fn thread_row_ok(
    rows: Seq<ThreadRow>,
    pid: u32,
    n: int,
    j: int,
    t: ThreadInfo,
) -> bool {
    let k = thread_sel_upto(rows, pid, n)[j];
    0 <= k < rows.len() && k < n && thread_record_matches(rows[k], t)
}

/// The threads of process `pid`: the system-wide snapshot rows filtered by
/// owning process, one record each, in snapshot order.
pub fn get_threads_for_process(rows: &Vec<ThreadRow>, pid: u32) -> (res: Vec<ThreadInfo>)
    ensures
        res@.len() == thread_sel_upto(rows@, pid, rows@.len() as int).len(),
        forall|j: int|
            0 <= j < res@.len() ==> thread_row_ok(
                rows@,
                pid,
                rows@.len() as int,
                j,
                #[trigger] res@[j],
            ),
{
    let n = rows.len();
    let mut out: Vec<ThreadInfo> = Vec::new();
    let mut i: usize = 0;
    while i < n
        invariant
            n == rows@.len(),
            i <= n,
            out@.len() == thread_sel_upto(rows@, pid, i as int).len(),
            forall|j: int|
                0 <= j < out@.len() ==> thread_row_ok(rows@, pid, i as int, j, #[trigger] out@[j]),
        decreases n - i,
    {
        proof {
            assert(thread_sel_upto(rows@, pid, i as int + 1) == thread_sel_upto(
                rows@,
                pid,
                i as int,
            ) + (if rows@[i as int].entry.owner_pid == pid {
                seq![i as int]
            } else {
                Seq::<int>::empty()
            }));
        }
        if rows[i].entry.owner_pid == pid {
            let t = thread_record(&rows[i]);
            out.push(t);
            proof {
                assert forall|j: int| 0 <= j < out@.len() implies thread_row_ok(
                    rows@,
                    pid,
                    i as int + 1,
                    j,
                    #[trigger] out@[j],
                ) by {
                    let sel = thread_sel_upto(rows@, pid, i as int + 1);
                    if j < out@.len() - 1 {
                        assert(sel[j] == thread_sel_upto(rows@, pid, i as int)[j]);
                    } else {
                        assert(sel[j] == i as int);
                    }
                }
            }
        } else {
            proof {
                assert(thread_sel_upto(rows@, pid, i as int + 1) =~= thread_sel_upto(
                    rows@,
                    pid,
                    i as int,
                ));
            }
        }
        i = i + 1;
    }
    proof {
        assert(i as int == rows@.len() as int);
    }
    out
}

} // verus!
