//! Per-process records and the enumeration pass.
//!
//! The enumeration walks the process identifiers the process-table query
//! reported. For each identifier the per-process queries are attempted by the
//! surrounding glue; an identifier that resolves to no probe — the process
//! exited between enumeration and the per-field pass, or access was denied —
//! is skipped without failing the snapshot. Every free-text field of a record
//! passes through the text sanitizer before the record is final.

use vstd::prelude::*;

use crate::sanitize::{decode_if_encoded, decode_spec};
use crate::thread::ThreadInfo;
use crate::CollectError;

verus! {

/// Per-process I/O counters, in the fixed layout the process query fills.
pub struct IoCounters {
    pub read_operation_count: u64,
    pub write_operation_count: u64,
    pub other_operation_count: u64,
    pub read_transfer_count: u64,
    pub write_transfer_count: u64,
    pub other_transfer_count: u64,
}

/// Per-process memory counters, in the fixed layout the process query fills
/// (byte figures widened to 64 bits).
pub struct ProcessMemoryCounters {
    pub page_fault_count: u32,
    pub peak_working_set: u64,
    pub working_set: u64,
    pub quota_peak_paged_pool: u64,
    pub quota_paged_pool: u64,
    pub quota_peak_non_paged_pool: u64,
    pub quota_non_paged_pool: u64,
    pub pagefile_usage: u64,
    pub peak_pagefile_usage: u64,
}

/// One live process at sample time.
pub struct ProcessInfo {
    pub pid: u32,
    pub name: String,
    pub exe_path: Option<String>,
    pub status: String,
    pub username: String,
    /// CPU share in hundredths of a percent of one core.
    pub cpu_hundredths: u32,
    pub memory_kb: u64,
    /// Share of physical memory in hundredths of a percent.
    pub memory_percent_hundredths: u32,
    pub arch: String,
    pub description: String,
    pub page_faults: u32,
    pub peak_working_set_kb: u64,
    pub working_set_kb: u64,
    pub pagefile_kb: u64,
    pub io_read_bytes: Option<u64>,
    pub io_write_bytes: Option<u64>,
    pub io_read_ops: Option<u64>,
    pub io_write_ops: Option<u64>,
    pub handle_count: Option<u32>,
    pub thread_count: Option<u32>,
    pub parent_pid: Option<u32>,
    pub priority: Option<i32>,
    pub creation_time: Option<u64>,
    pub session_id: Option<u32>,
    pub command_line: Option<String>,
    pub environment: Option<Vec<String>>,
    pub threads: Vec<ThreadInfo>,
    pub open_resources: Option<Vec<String>>,
}

/// Everything the per-process queries report about one process identifier.
/// Optional fields are absent where the corresponding query failed — absent
/// means could not be obtained, not zero.
pub struct ProcessProbe {
    pub pid: u32,
    pub name: String,
    pub exe_path: Option<String>,
    pub status: String,
    pub username: Option<String>,
    pub wow64: Option<bool>,
    pub description: Option<String>,
    pub memory: Option<ProcessMemoryCounters>,
    pub io: Option<IoCounters>,
    pub handle_count: Option<u32>,
    pub tasks_len: Option<u32>,
    pub parent_pid: Option<u32>,
    pub priority_raw: Option<u32>,
    pub creation_time: Option<u64>,
    pub command_line: Option<String>,
    pub environment: Option<Vec<String>>,
    pub threads: Vec<ThreadInfo>,
    pub open_resources: Option<Vec<String>>,
}

/// Splits the I/O counter block into the four reported figures, each absent
/// where the counters could not be obtained.
pub fn get_process_io_counters(io: Option<&IoCounters>) -> (r: (
    Option<u64>,
    Option<u64>,
    Option<u64>,
    Option<u64>,
))
    ensures
        match io {
            Some(c) => r == (
                Some(c.read_transfer_count),
                Some(c.write_transfer_count),
                Some(c.read_operation_count),
                Some(c.write_operation_count),
            ),
            None => r == (
                Option::<u64>::None,
                Option::<u64>::None,
                Option::<u64>::None,
                Option::<u64>::None,
            ),
        },
{
    match io {
        Some(c) => (
            Some(c.read_transfer_count),
            Some(c.write_transfer_count),
            Some(c.read_operation_count),
            Some(c.write_operation_count),
        ),
        None => (None, None, None, None),
    }
}

/// The page-fault count and peak working set (in KB) from the memory
/// counters, zeros where the query failed.
pub fn get_process_memory_info(c: Option<&ProcessMemoryCounters>) -> (r: (u32, u64))
    ensures
        match c {
            Some(m) => r == (m.page_fault_count, m.peak_working_set / 1024),
            None => r == (0u32, 0u64),
        },
{
    match c {
        Some(m) => (m.page_fault_count, m.peak_working_set / 1024),
        None => (0, 0),
    }
}

/// The thread count for a record: the task list's length where the process
/// table reported one, the number of enumerated threads otherwise.
pub open spec fn spec_thread_count(tasks_len: Option<u32>, threads_len: u32) -> Option<u32> {
    match tasks_len {
        Some(n) => if n > 0 {
            Some(n)
        } else {
            Some(threads_len)
        },
        None => Some(threads_len),
    }
}

/// Picks the thread count from the process table's task list where it
/// reported one, from the thread enumeration otherwise.
pub fn get_process_thread_count(tasks_len: Option<u32>, threads_len: u32) -> (r: Option<u32>)
    ensures
        r == spec_thread_count(tasks_len, threads_len),
{
    match tasks_len {
        Some(n) => if n > 0 {
            Some(n)
        } else {
            Some(threads_len)
        },
        None => Some(threads_len),
    }
}

/// The priority class, absent where the query failed or reported zero.
pub open spec fn spec_priority(raw: Option<u32>) -> Option<i32> {
    match raw {
        Some(p) => if p != 0 {
            Some(p as i32)
        } else {
            None
        },
        None => None,
    }
}

/// Maps the raw priority-class figure to the record's priority: zero means
/// the query failed.
pub fn get_process_priority(raw: Option<u32>) -> (r: Option<i32>)
    ensures
        r == spec_priority(raw),
{
    match raw {
        Some(p) => if p != 0 {
            Some(#[verifier::truncate] (p as i32))
        } else {
            None
        },
        None => None,
    }
}

/// No session identifier is available through these queries.
pub fn get_process_session_id(_pid: u32) -> (r: Option<u32>)
    ensures
        r is None,
{
    None
}

/// The architecture label for a process, from the emulation flag: a process
/// running under 32-bit emulation is x86, otherwise x64; unknown where the
/// query failed.
pub open spec fn spec_arch_label(wow64: Option<bool>) -> Seq<char> {
    match wow64 {
        Some(w) => if w {
            "x86"@
        } else {
            "x64"@
        },
        None => "Unknown"@,
    }
}

fn arch_label(wow64: Option<bool>) -> (s: String)
    ensures
        s@ == spec_arch_label(wow64),
{
    match wow64 {
        Some(true) => String::from_str("x86"),
        Some(false) => String::from_str("x64"),
        None => String::from_str("Unknown"),
    }
}

/// An owning-account display name: the bare account name where no domain
/// was resolved, domain and name joined by a backslash otherwise.
pub open spec fn spec_account_name(domain: Seq<char>, name: Seq<char>) -> Seq<char> {
    if domain.len() == 0 {
        name
    } else {
        domain + seq!['\\'] + name
    }
}

/// Formats the owning account of a process from the resolved domain and
/// account names.
pub fn format_process_username(domain: &str, name: &str) -> (r: String)
    ensures
        r@ == spec_account_name(domain@, name@),
{
    proof {
        reveal_strlit("\\");
        assert("\\"@ =~= seq!['\\']);
    }
    if domain.is_empty() {
        name.to_owned()
    } else {
        let d = domain.to_owned();
        let joined = d.concat("\\");
        joined.concat(name)
    }
}

/// The process's CPU share from the sampling pass: the entry of its
/// identifier, zero where the sampler did not see the process.
pub open spec fn spec_cpu_for(entries: Seq<(u32, u32)>, pid: u32) -> u32
    decreases entries.len(),
{
    if entries.len() == 0 {
        0u32
    } else if entries[0].0 == pid {
        entries[0].1
    } else {
        spec_cpu_for(entries.drop_first(), pid)
    }
}

/// Looks up the CPU share sampled for `pid` (hundredths of a percent),
/// zero where the sampling pass did not see the process.
pub fn cpu_for_pid(entries: &Vec<(u32, u32)>, pid: u32) -> (r: u32)
    ensures
        r == spec_cpu_for(entries@, pid),
{
    let n = entries.len();
    let mut i: usize = 0;
    proof {
        assert(entries@.skip(0) =~= entries@);
    }
    while i < n
        invariant
            n == entries@.len(),
            i <= n,
            spec_cpu_for(entries@, pid) == spec_cpu_for(entries@.skip(i as int), pid),
        decreases n - i,
    {
        proof {
            assert(entries@.skip(i as int)[0] == entries@[i as int]);
            assert(entries@.skip(i as int).drop_first() =~= entries@.skip(i as int + 1));
        }
        if entries[i].0 == pid {
            return entries[i].1;
        }
        i = i + 1;
    }
    proof {
        assert(entries@.skip(n as int).len() == 0);
    }
    0
}

/// The process's share of physical memory in hundredths of a percent
/// (floor, zero where the total is zero, clamped at the top of the range).
pub open spec fn spec_mem_percent_hundredths(mem_kb: u64, total_kb: u64) -> u32 {
    if total_kb == 0 {
        0u32
    } else if mem_kb * 10000 / (total_kb as int) > u32::MAX {
        u32::MAX
    } else {
        (mem_kb * 10000 / (total_kb as int)) as u32
    }
}

fn mem_percent_hundredths(mem_kb: u64, total_kb: u64) -> (p: u32)
    ensures
        p == spec_mem_percent_hundredths(mem_kb, total_kb),
{
    if total_kb == 0 {
        0
    } else {
        let d: u128 = (mem_kb as u128) * 10000 / (total_kb as u128);
        if d > u32::MAX as u128 {
            u32::MAX
        } else {
            d as u32
        }
    }
}

/// The user name a record shows where the owning account could not be
/// resolved.
pub open spec fn spec_username_raw(username: Option<String>) -> Seq<char> {
    match username {
        Some(u) => u@,
        None => "?"@,
    }
}

/// One sanitized thread record: every free-text field passed through the
/// text sanitizer, everything else unchanged.
pub open spec fn thread_sanitized(orig: ThreadInfo, t: ThreadInfo) -> bool {
    &&& t.tid == orig.tid
    &&& t.base_priority == orig.base_priority
    &&& t.delta_priority == orig.delta_priority
    &&& t.start_address == orig.start_address
    &&& t.state@ == decode_spec(orig.state@)
    &&& t.wait_reason@ == decode_spec(orig.wait_reason@)
    &&& t.context_switches == orig.context_switches
    &&& t.user_time_ms == orig.user_time_ms
    &&& t.kernel_time_ms == orig.kernel_time_ms
}

fn sanitize_threads(threads: &Vec<ThreadInfo>) -> (res: Vec<ThreadInfo>)
    ensures
        res@.len() == threads@.len(),
        forall|j: int|
            0 <= j < res@.len() ==> thread_sanitized(threads@[j], #[trigger] res@[j]),
{
    let n = threads.len();
    let mut out: Vec<ThreadInfo> = Vec::new();
    let mut i: usize = 0;
    while i < n
        invariant
            n == threads@.len(),
            i <= n,
            out@.len() == i,
            forall|j: int| 0 <= j < i ==> thread_sanitized(threads@[j], #[trigger] out@[j]),
        decreases n - i,
    {
        let t = &threads[i];
        let state = decode_if_encoded(t.state.as_str());
        let wait_reason = decode_if_encoded(t.wait_reason.as_str());
        out.push(
            ThreadInfo {
                tid: t.tid,
                base_priority: t.base_priority,
                delta_priority: t.delta_priority,
                start_address: t.start_address,
                state,
                wait_reason,
                context_switches: t.context_switches,
                user_time_ms: t.user_time_ms,
                kernel_time_ms: t.kernel_time_ms,
            },
        );
        i = i + 1;
    }
    out
}

fn sanitize_strings(items: &Vec<String>) -> (res: Vec<String>)
    ensures
        res@.len() == items@.len(),
        forall|j: int| 0 <= j < res@.len() ==> #[trigger] res@[j]@ == decode_spec(items@[j]@),
{
    let n = items.len();
    let mut out: Vec<String> = Vec::new();
    let mut i: usize = 0;
    while i < n
        invariant
            n == items@.len(),
            i <= n,
            out@.len() == i,
            forall|j: int| 0 <= j < i ==> #[trigger] out@[j]@ == decode_spec(items@[j]@),
        decreases n - i,
    {
        let s = decode_if_encoded(items[i].as_str());
        out.push(s);
        i = i + 1;
    }
    out
}

/// Field-by-field statement of the record assembled for one probe: every
/// free-text field sanitized; memory figures from the counters block (zeros
/// where it could not be obtained, KB units); I/O figures kept optional —
/// absent means could not be obtained, not zero; the CPU share from the
/// sampling pass.
pub open spec fn process_record_matches(
    probe: ProcessProbe,
    cpu: u32,
    total_memory_kb: u64,
    rec: ProcessInfo,
) -> bool {
    &&& rec.pid == probe.pid
    &&& rec.name@ == decode_spec(probe.name@)
    &&& match probe.exe_path {
        Some(p) => rec.exe_path is Some && rec.exe_path->Some_0@ == decode_spec(p@),
        None => rec.exe_path is None,
    }
    &&& rec.status@ == decode_spec(probe.status@)
    &&& rec.username@ == decode_spec(spec_username_raw(probe.username))
    &&& rec.cpu_hundredths == cpu
    &&& match probe.memory {
        Some(m) => {
            &&& rec.memory_kb == m.working_set / 1024
            &&& rec.page_faults == m.page_fault_count
            &&& rec.peak_working_set_kb == m.peak_working_set / 1024
            &&& rec.working_set_kb == m.working_set / 1024
            &&& rec.pagefile_kb == m.pagefile_usage / 1024
        },
        None => {
            &&& rec.memory_kb == 0
            &&& rec.page_faults == 0
            &&& rec.peak_working_set_kb == 0
            &&& rec.working_set_kb == 0
            &&& rec.pagefile_kb == 0
        },
    }
    &&& rec.memory_percent_hundredths == spec_mem_percent_hundredths(
        rec.memory_kb,
        total_memory_kb,
    )
    &&& rec.arch@ == decode_spec(spec_arch_label(probe.wow64))
    &&& rec.description@ == decode_spec(
        match probe.description {
            Some(d) => d@,
            None => Seq::<char>::empty(),
        },
    )
    &&& match probe.io {
        Some(c) => {
            &&& rec.io_read_bytes == Some(c.read_transfer_count)
            &&& rec.io_write_bytes == Some(c.write_transfer_count)
            &&& rec.io_read_ops == Some(c.read_operation_count)
            &&& rec.io_write_ops == Some(c.write_operation_count)
        },
        None => {
            &&& rec.io_read_bytes is None
            &&& rec.io_write_bytes is None
            &&& rec.io_read_ops is None
            &&& rec.io_write_ops is None
        },
    }
    &&& rec.handle_count == probe.handle_count
    &&& rec.thread_count == spec_thread_count(probe.tasks_len, probe.threads@.len() as u32)
    &&& rec.parent_pid == probe.parent_pid
    &&& rec.priority == spec_priority(probe.priority_raw)
    &&& rec.creation_time == probe.creation_time
    &&& rec.session_id is None
    &&& match probe.command_line {
        Some(c) => rec.command_line is Some && rec.command_line->Some_0@ == decode_spec(c@),
        None => rec.command_line is None,
    }
    &&& match probe.environment {
        Some(env) => {
            &&& rec.environment is Some
            &&& rec.environment->Some_0@.len() == env@.len()
            &&& forall|j: int|
                0 <= j < env@.len() ==> #[trigger] rec.environment->Some_0@[j]@ == decode_spec(
                    env@[j]@,
                )
        },
        None => rec.environment is None,
    }
    &&& rec.threads@.len() == probe.threads@.len()
    &&& forall|j: int|
        0 <= j < rec.threads@.len() ==> thread_sanitized(
            probe.threads@[j],
            #[trigger] rec.threads@[j],
        )
    &&& match probe.open_resources {
        Some(v) => {
            &&& rec.open_resources is Some
            &&& rec.open_resources->Some_0@.len() == v@.len()
            &&& forall|j: int|
                0 <= j < v@.len() ==> #[trigger] rec.open_resources->Some_0@[j] == v@[j]
        },
        None => rec.open_resources is Some && rec.open_resources->Some_0@.len() == 0,
    }
}

fn clone_strings(items: &Vec<String>) -> (res: Vec<String>)
    ensures
        res@.len() == items@.len(),
        forall|j: int| 0 <= j < res@.len() ==> #[trigger] res@[j] == items@[j],
{
    let n = items.len();
    let mut out: Vec<String> = Vec::new();
    let mut i: usize = 0;
    while i < n
        invariant
            n == items@.len(),
            i <= n,
            out@.len() == i,
            forall|j: int| 0 <= j < i ==> #[trigger] out@[j] == items@[j],
        decreases n - i,
    {
        let s = items[i].clone();
        out.push(s);
        i = i + 1;
    }
    out
}

/// Assembles the record for one probe. The probe's threads count toward the
/// thread count where the process table reported no task list; the CPU share
/// comes from the sampling pass; the total memory scales the memory share.
pub fn make_process_record(probe: &ProcessProbe, cpu: u32, total_memory_kb: u64) -> (rec:
    ProcessInfo)
    ensures
        process_record_matches(*probe, cpu, total_memory_kb, rec),
{
    let name = decode_if_encoded(probe.name.as_str());
    let exe_path = match &probe.exe_path {
        Some(p) => Some(decode_if_encoded(p.as_str())),
        None => None,
    };
    let status = decode_if_encoded(probe.status.as_str());
    let username = match &probe.username {
        Some(u) => decode_if_encoded(u.as_str()),
        None => decode_if_encoded("?"),
    };
    let (memory_kb, page_faults, peak_working_set_kb, pagefile_kb) = match &probe.memory {
        Some(m) => (
            m.working_set / 1024,
            m.page_fault_count,
            m.peak_working_set / 1024,
            m.pagefile_usage / 1024,
        ),
        None => (0u64, 0u32, 0u64, 0u64),
    };
    let memory_percent_hundredths = mem_percent_hundredths(memory_kb, total_memory_kb);
    let arch_raw = arch_label(probe.wow64);
    let arch = decode_if_encoded(arch_raw.as_str());
    let description = match &probe.description {
        Some(d) => decode_if_encoded(d.as_str()),
        None => decode_if_encoded(""),
    };
    proof {
        reveal_strlit("");
        assert(""@ =~= Seq::<char>::empty());
    }
    let (io_read_bytes, io_write_bytes, io_read_ops, io_write_ops) = get_process_io_counters(
        probe.io.as_ref(),
    );
    let threads = sanitize_threads(&probe.threads);
    let thread_count = get_process_thread_count(probe.tasks_len, probe.threads.len() as u32);
    let priority = get_process_priority(probe.priority_raw);
    let session_id = get_process_session_id(probe.pid);
    let command_line = match &probe.command_line {
        Some(c) => Some(decode_if_encoded(c.as_str())),
        None => None,
    };
    let environment = match &probe.environment {
        Some(env) => Some(sanitize_strings(env)),
        None => None,
    };
    let open_resources = match &probe.open_resources {
        Some(v) => Some(clone_strings(v)),
        None => Some(Vec::new()),
    };
    ProcessInfo {
        pid: probe.pid,
        name,
        exe_path,
        status,
        username,
        cpu_hundredths: cpu,
        memory_kb,
        memory_percent_hundredths,
        arch,
        description,
        page_faults,
        peak_working_set_kb,
        working_set_kb: memory_kb,
        pagefile_kb,
        io_read_bytes,
        io_write_bytes,
        io_read_ops,
        io_write_ops,
        handle_count: probe.handle_count,
        thread_count,
        parent_pid: probe.parent_pid,
        priority,
        creation_time: probe.creation_time,
        session_id,
        command_line,
        environment,
        threads,
        open_resources,
    }
}

/// The process-table query's buffer protocol: the table is queried into a
/// fixed-capacity buffer, and where the query filled the whole buffer, more
/// identifiers may exist — the buffer is doubled and the query retried.
/// A partially filled buffer means the table was read whole.
pub fn pid_buffer_next(capacity: usize, filled: usize) -> (r: Option<usize>)
    requires
        1 <= capacity <= usize::MAX / 2,
    ensures
        r is Some <==> filled >= capacity,
        r is Some ==> r->Some_0 == capacity * 2,
{
    if filled >= capacity {
        Some(capacity * 2)
    } else {
        None
    }
}

/// An enumerated identifier the pass includes: not the idle pseudo-process,
/// and resolving to a probe.
pub open spec fn proc_included(probes: Seq<ProcessProbe>, pid: u32) -> bool {
    pid != 0 && exists|k: int| 0 <= k < probes.len() && #[trigger] probes[k].pid == pid
}

/// `m` is the first probe index for `pid`.
pub open spec fn first_probe_at(probes: Seq<ProcessProbe>, pid: u32, m: int) -> bool {
    &&& 0 <= m < probes.len()
    &&& probes[m].pid == pid
    &&& forall|j: int| 0 <= j < m ==> #[trigger] probes[j].pid != pid
}

/// The positions among the first `n` enumerated identifiers that the pass
/// includes, in enumeration order.
pub open spec fn proc_sel_upto(pids: Seq<u32>, probes: Seq<ProcessProbe>, n: int) -> Seq<int>
    decreases n,
{
    if n <= 0 {
        Seq::empty()
    } else {
        proc_sel_upto(pids, probes, n - 1) + (if proc_included(probes, pids[n - 1]) {
            seq![n - 1]
        } else {
            Seq::empty()
        })
    }
}

proof fn lemma_proc_sel_agrees(a: Seq<u32>, b: Seq<u32>, probes: Seq<ProcessProbe>, n: int)
    requires
        forall|i: int| 0 <= i < n ==> a[i] == b[i],
    ensures
        proc_sel_upto(a, probes, n) == proc_sel_upto(b, probes, n),
    decreases n,
{
    if n > 0 {
        lemma_proc_sel_agrees(a, b, probes, n - 1);
    }
}

/// Law: a process that exits between enumeration and the per-field pass —
/// its identifier no longer resolves to a probe — is skipped: appending such
/// an identifier to the enumeration changes nothing in what the pass
/// selects, and the snapshot is never failed on its account.
pub proof fn lemma_vanished_process_skipped(
    pids: Seq<u32>,
    probes: Seq<ProcessProbe>,
    pid: u32,
)
    requires
        !proc_included(probes, pid),
    ensures
        proc_sel_upto(pids.push(pid), probes, pids.len() as int + 1) == proc_sel_upto(
            pids,
            probes,
            pids.len() as int,
        ),
{
    let n = pids.len() as int;
    lemma_proc_sel_agrees(pids.push(pid), pids, probes, n);
    assert(pids.push(pid)[n] == pid);
    assert(proc_sel_upto(pids.push(pid), probes, n + 1) =~= proc_sel_upto(
        pids.push(pid),
        probes,
        n,
    ));
}

/// Finds the first probe gathered for `pid`.
fn find_probe<'a>(probes: &'a Vec<ProcessProbe>, pid: u32) -> (r: Option<&'a ProcessProbe>)
    ensures
        r is Some <==> exists|k: int| 0 <= k < probes@.len() && #[trigger] probes@[k].pid == pid,
        match r {
            Some(p) => exists|m: int| first_probe_at(probes@, pid, m) && probes@[m] == *p,
            None => true,
        },
{
    let n = probes.len();
    let mut i: usize = 0;
    while i < n
        invariant
            n == probes@.len(),
            i <= n,
            forall|j: int| 0 <= j < i ==> #[trigger] probes@[j].pid != pid,
        decreases n - i,
    {
        if probes[i].pid == pid {
            proof {
                assert(first_probe_at(probes@, pid, i as int));
            }
            return Some(&probes[i]);
        }
        i = i + 1;
    }
    None
}

/// How the process-table query ended: the identifiers it reported; a hard
/// query failure, which counts as "no processes available" rather than a
/// fatal condition; or the enumeration primitive itself being unavailable,
/// which makes no snapshot possible at all.
pub enum ProcessTableOutcome {
    Table(Vec<u32>),
    QueryFailed,
    Unavailable,
}

/// One row of the enumeration pass: the record for the `j`-th included
/// identifier, assembled from the first probe of that identifier.
pub open spec fn proc_row_ok(
    pids: Seq<u32>,
    probes: Seq<ProcessProbe>,
    cpu_entries: Seq<(u32, u32)>,
    total_memory_kb: u64,
    n: int,
    j: int,
    rec: ProcessInfo,
) -> bool {
    let k = proc_sel_upto(pids, probes, n)[j];
    &&& 0 <= k < pids.len()
    &&& k < n
    &&& exists|m: int|
        first_probe_at(probes, pids[k], m) && process_record_matches(
            probes[m],
            spec_cpu_for(cpu_entries, pids[k]),
            total_memory_kb,
            rec,
        )
}

/// The enumeration pass, gated on privilege. Refused outright where the
/// privilege check failed, before anything else is looked at. Otherwise one
/// record per enumerated identifier that is not the idle pseudo-process and
/// still resolves to a probe, in enumeration order; identifiers that resolve
/// to nothing are skipped, never fatal. An empty or failed process table
/// yields an empty sequence, not an error; only an unavailable enumeration
/// primitive makes the operation fail.
pub fn list_processes(
    elevated: bool,
    table: &ProcessTableOutcome,
    probes: &Vec<ProcessProbe>,
    cpu_entries: &Vec<(u32, u32)>,
    total_memory_kb: u64,
) -> (r: Result<Vec<ProcessInfo>, CollectError>)
    ensures
        !elevated ==> r is Err && r->Err_0 == CollectError::Unauthorized,
        elevated ==> match table {
            ProcessTableOutcome::Table(enumerated) => {
                &&& r is Ok
                &&& r->Ok_0@.len() == proc_sel_upto(
                    enumerated@,
                    probes@,
                    enumerated@.len() as int,
                ).len()
                &&& forall|j: int|
                    0 <= j < r->Ok_0@.len() ==> proc_row_ok(
                        enumerated@,
                        probes@,
                        cpu_entries@,
                        total_memory_kb,
                        enumerated@.len() as int,
                        j,
                        #[trigger] r->Ok_0@[j],
                    )
                &&& (enumerated@.len() == 0 ==> r->Ok_0@.len() == 0)
            },
            ProcessTableOutcome::QueryFailed => r is Ok && r->Ok_0@.len() == 0,
            ProcessTableOutcome::Unavailable => r is Err && r->Err_0 == CollectError::Fatal,
        },
{
    if !elevated {
        return Err(CollectError::Unauthorized);
    }
    let enumerated = match table {
        ProcessTableOutcome::Table(t) => t,
        ProcessTableOutcome::QueryFailed => {
            return Ok(Vec::new());
        },
        ProcessTableOutcome::Unavailable => {
            return Err(CollectError::Fatal);
        },
    };
    let n = enumerated.len();
    let mut out: Vec<ProcessInfo> = Vec::new();
    let mut i: usize = 0;
    while i < n
        invariant
            n == enumerated@.len(),
            i <= n,
            out@.len() == proc_sel_upto(enumerated@, probes@, i as int).len(),
            forall|j: int|
                0 <= j < out@.len() ==> proc_row_ok(
                    enumerated@,
                    probes@,
                    cpu_entries@,
                    total_memory_kb,
                    i as int,
                    j,
                    #[trigger] out@[j],
                ),
        decreases n - i,
    {
        proof {
            assert(proc_sel_upto(enumerated@, probes@, i as int + 1) == proc_sel_upto(
                enumerated@,
                probes@,
                i as int,
            ) + (if proc_included(probes@, enumerated@[i as int]) {
                seq![i as int]
            } else {
                Seq::<int>::empty()
            }));
        }
        let pid = enumerated[i];
        let mut pushed = false;
        if pid != 0 {
            match find_probe(probes, pid) {
                Some(probe) => {
                    let cpu = cpu_for_pid(cpu_entries, pid);
                    let rec = make_process_record(probe, cpu, total_memory_kb);
                    out.push(rec);
                    pushed = true;
                    proof {
                        assert(proc_included(probes@, pid));
                        assert forall|j: int| 0 <= j < out@.len() implies proc_row_ok(
                            enumerated@,
                            probes@,
                            cpu_entries@,
                            total_memory_kb,
                            i as int + 1,
                            j,
                            #[trigger] out@[j],
                        ) by {
                            let sel = proc_sel_upto(enumerated@, probes@, i as int + 1);
                            if j < out@.len() - 1 {
                                assert(sel[j] == proc_sel_upto(enumerated@, probes@, i as int)[j]);
                            } else {
                                assert(sel[j] == i as int);
                            }
                        }
                    }
                },
                None => {
                    proof {
                        assert(!proc_included(probes@, pid));
                    }
                },
            }
        }
        proof {
            if !pushed {
                assert(proc_sel_upto(enumerated@, probes@, i as int + 1) =~= proc_sel_upto(
                    enumerated@,
                    probes@,
                    i as int,
                ));
            }
        }
        i = i + 1;
    }
    proof {
        assert(i as int == enumerated@.len() as int);
    }
    Ok(out)
}

} // verus!
