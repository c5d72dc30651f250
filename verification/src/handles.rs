//! Per-process handle records.
//!
//! The system-wide handle table has no size known in advance: it is read
//! through a buffer-growth protocol that starts with a generously sized
//! buffer and doubles it on every explicit too-small signal, bounded by a
//! maximum retry count so that it terminates. After a single successful
//! query the table is filtered down to the requested process. A handle with
//! a resolvable object-type number but no name is valid output: resolving
//! names would take a privileged duplicate-handle step that is deliberately
//! not implemented.

use vstd::arithmetic::power2::{
    lemma2_to64, lemma_pow2_adds, lemma_pow2_strictly_increases, pow2,
};
use vstd::prelude::*;

use crate::sanitize::{decode_if_encoded, decode_spec};
use crate::textfmt::{spec_decimal, spec_hex_upper, u64_to_hex_upper, u64_to_string};
use crate::CollectError;

verus! {

/// One open handle of a process.
pub struct HandleInfo {
    pub handle: u16,
    pub object_type: String,
    pub name: String,
    pub access: u32,
}

/// One entry of the system-wide handle table, in the fixed layout the
/// operating system reports.
#[allow(non_camel_case_types)]
#[allow(non_snake_case)]
#[derive(Clone, Copy)]
pub struct SYSTEM_HANDLE {
    pub ProcessId: u32,
    pub ObjectTypeNumber: u8,
    pub Flags: u8,
    pub Handle: u16,
    pub Object: usize,
    pub GrantedAccess: u32,
}

/// The head of the handle-table block: the entry count, then the entries.
#[allow(non_camel_case_types)]
#[allow(non_snake_case)]
pub struct SYSTEM_HANDLE_INFORMATION {
    pub HandleCount: u32,
    pub Handles: Vec<SYSTEM_HANDLE>,
}

/// The starting buffer size of the handle-table query, in bytes.
pub const HANDLE_INITIAL_BUFFER_BYTES: u64 = 0x10000;

/// The bound on the growth protocol's retries.
pub const HANDLE_MAX_ATTEMPTS: u32 = 16;

/// The state of the buffer-growth protocol: the current buffer size and how
/// often the buffer has been grown.
#[derive(Clone, Copy, Debug, PartialEq, Eq, Structural)]
pub struct BufferPlan {
    pub buffer_bytes: u64,
    pub attempts: u32,
}

/// The growth protocol's invariant: the buffer has been doubled once per
/// attempt, and the attempts stay within the bound.
pub open spec fn plan_wf(p: BufferPlan) -> bool {
    p.attempts <= HANDLE_MAX_ATTEMPTS && p.buffer_bytes == HANDLE_INITIAL_BUFFER_BYTES * pow2(
        p.attempts as nat,
    )
}

/// What one too-small signal does to the plan: double the buffer, or give
/// up once the retry bound is reached.
pub open spec fn spec_grow(p: BufferPlan) -> Option<BufferPlan> {
    if p.attempts >= HANDLE_MAX_ATTEMPTS {
        None
    } else {
        Some(
            BufferPlan {
                buffer_bytes: (2 * p.buffer_bytes) as u64,
                attempts: (p.attempts + 1) as u32,
            },
        )
    }
}

/// The plan after `k` consecutive too-small signals, or `None` where the
/// protocol gave up within those `k`.
pub open spec fn grows_left(p: BufferPlan, k: nat) -> Option<BufferPlan>
    decreases k,
{
    if k == 0 {
        Some(p)
    } else {
        match spec_grow(p) {
            None => None,
            Some(q) => grows_left(q, (k - 1) as nat),
        }
    }
}

/// The starting plan of one handle-table query.
pub fn initial_plan() -> (p: BufferPlan)
    ensures
        plan_wf(p),
        p.attempts == 0,
        p.buffer_bytes == HANDLE_INITIAL_BUFFER_BYTES,
{
    proof {
        lemma2_to64();
    }
    BufferPlan { buffer_bytes: HANDLE_INITIAL_BUFFER_BYTES, attempts: 0 }
}

/// The next step after a too-small signal.
pub enum GrowthStep {
    /// Query again with this larger plan.
    Retry(BufferPlan),
    /// The retry bound is exhausted: the sub-query counts as overflowed and
    /// is treated as partially unavailable, never looped on forever.
    GiveUp,
}

/// Reacts to one explicit too-small signal from the table query: doubles
/// the buffer while the retry bound allows, gives up once it is reached.
pub fn grow_plan(p: &BufferPlan) -> (s: GrowthStep)
    requires
        plan_wf(*p),
    ensures
        match s {
            GrowthStep::Retry(q) => spec_grow(*p) == Some(q) && plan_wf(q) && q.attempts
                == p.attempts + 1 && q.buffer_bytes == 2 * p.buffer_bytes,
            GrowthStep::GiveUp => spec_grow(*p) is None && p.attempts == HANDLE_MAX_ATTEMPTS,
        },
{
    if p.attempts >= HANDLE_MAX_ATTEMPTS {
        GrowthStep::GiveUp
    } else {
        proof {
            lemma2_to64();
            if p.attempts as nat + 1 <= 16 {
                lemma_pow2_adds(p.attempts as nat, 1);
                if (p.attempts as nat) < 16 {
                    lemma_pow2_strictly_increases(p.attempts as nat, 16);
                }
            }
        }
        GrowthStep::Retry(
            BufferPlan { buffer_bytes: 2 * p.buffer_bytes, attempts: p.attempts + 1 },
        )
    }
}

/// Law: the buffer-growth protocol terminates within a bounded number of
/// retries, also when the true table size is never learned: after more
/// consecutive too-small signals than the remaining retry budget, the
/// protocol has given up.
pub proof fn lemma_growth_terminates(p: BufferPlan, k: nat)
    requires
        plan_wf(p),
        k > HANDLE_MAX_ATTEMPTS - p.attempts,
    ensures
        grows_left(p, k) is None,
    decreases k,
{
    if p.attempts >= HANDLE_MAX_ATTEMPTS {
    } else {
        let q = spec_grow(p)->Some_0;
        assert(plan_wf(q)) by {
            lemma_pow2_adds(p.attempts as nat, 1);
            lemma2_to64();
        }
        lemma_growth_terminates(q, (k - 1) as nat);
    }
}

/// The indices among the first `n` table entries that belong to `pid`,
/// in table order.
pub open spec fn handle_sel_upto(table: Seq<SYSTEM_HANDLE>, pid: u32, n: int) -> Seq<int>
    decreases n,
{
    if n <= 0 {
        Seq::empty()
    } else {
        handle_sel_upto(table, pid, n - 1) + (if table[n - 1].ProcessId == pid {
            seq![n - 1]
        } else {
            Seq::empty()
        })
    }
}

pub proof fn lemma_handle_sel_range(table: Seq<SYSTEM_HANDLE>, pid: u32, n: int)
    ensures
        forall|j: int|
            0 <= j < handle_sel_upto(table, pid, n).len() ==> 0 <= #[trigger] handle_sel_upto(
                table,
                pid,
                n,
            )[j] < n,
        handle_sel_upto(table, pid, n).len() <= (if n >= 0 {
            n
        } else {
            0
        }),
    decreases n,
{
    if n > 0 {
        lemma_handle_sel_range(table, pid, n - 1);
        let prev = handle_sel_upto(table, pid, n - 1);
        let cur = handle_sel_upto(table, pid, n);
        assert forall|j: int| 0 <= j < cur.len() implies 0 <= #[trigger] cur[j] < n by {
            if j < prev.len() {
                assert(cur[j] == prev[j]);
            } else {
                assert(cur[j] == n - 1);
            }
        }
    }
}

/// Field-by-field statement of the raw record for one table entry: the raw
/// handle value and access mask, the object-type number rendered in decimal,
/// and no name — name resolution is out of scope, an empty name is valid.
pub open spec fn handle_matches(h: SYSTEM_HANDLE, r: HandleInfo) -> bool {
    &&& r.handle == h.Handle
    &&& r.object_type@ == spec_decimal(h.ObjectTypeNumber as int)
    &&& r.name@ == Seq::<char>::empty()
    &&& r.access == h.GrantedAccess
}

/// One row of the filtered handle listing.
pub open spec fn handle_row_ok(
    table: Seq<SYSTEM_HANDLE>,
    pid: u32,
    n: int,
    j: int,
    r: HandleInfo,
) -> bool {
    let k = handle_sel_upto(table, pid, n)[j];
    0 <= k < table.len() && k < n && handle_matches(table[k], r)
}

/// Filters the system-wide handle table down to the entries of `pid`, one
/// record each, in table order.
pub fn get_handles_for_process(table: &Vec<SYSTEM_HANDLE>, pid: u32) -> (res: Vec<HandleInfo>)
    ensures
        res@.len() == handle_sel_upto(table@, pid, table@.len() as int).len(),
        forall|j: int|
            0 <= j < res@.len() ==> handle_row_ok(
                table@,
                pid,
                table@.len() as int,
                j,
                #[trigger] res@[j],
            ),
{
    let n = table.len();
    let mut out: Vec<HandleInfo> = Vec::new();
    let mut i: usize = 0;
    while i < n
        invariant
            n == table@.len(),
            i <= n,
            out@.len() == handle_sel_upto(table@, pid, i as int).len(),
            forall|j: int|
                0 <= j < out@.len() ==> handle_row_ok(table@, pid, i as int, j, #[trigger] out@[j]),
        decreases n - i,
    {
        proof {
            assert(handle_sel_upto(table@, pid, i as int + 1) == handle_sel_upto(
                table@,
                pid,
                i as int,
            ) + (if table@[i as int].ProcessId == pid {
                seq![i as int]
            } else {
                Seq::<int>::empty()
            }));
        }
        if table[i].ProcessId == pid {
            let object_type = u64_to_string(table[i].ObjectTypeNumber as u64);
            let r = HandleInfo {
                handle: table[i].Handle,
                object_type,
                name: String::new(),
                access: table[i].GrantedAccess,
            };
            out.push(r);
            proof {
                assert forall|j: int| 0 <= j < out@.len() implies handle_row_ok(
                    table@,
                    pid,
                    i as int + 1,
                    j,
                    #[trigger] out@[j],
                ) by {
                    let sel = handle_sel_upto(table@, pid, i as int + 1);
                    if j < out@.len() - 1 {
                        assert(sel[j] == handle_sel_upto(table@, pid, i as int)[j]);
                    } else {
                        assert(sel[j] == i as int);
                    }
                }
            }
        } else {
            proof {
                assert(handle_sel_upto(table@, pid, i as int + 1) =~= handle_sel_upto(
                    table@,
                    pid,
                    i as int,
                ));
            }
        }
        i = i + 1;
    }
    proof {
        assert(i as int == table@.len() as int);
    }
    out
}

/// The object-type classification for a type number, by the well-known
/// type-number convention.
pub open spec fn spec_handle_type_label(t: u8) -> Seq<char> {
    if t == 0x1C || t == 0x1F {
        "File"@
    } else if t == 0x1E {
        "Mutex"@
    } else if t == 0x1D {
        "Semaphore"@
    } else if t == 0x1B {
        "Pipe"@
    } else if t == 0x1A {
        "Socket"@
    } else {
        "Other"@
    }
}

fn handle_type_label(t: u8) -> (s: String)
    ensures
        s@ == spec_handle_type_label(t),
{
    if t == 0x1C || t == 0x1F {
        String::from_str("File")
    } else if t == 0x1E {
        String::from_str("Mutex")
    } else if t == 0x1D {
        String::from_str("Semaphore")
    } else if t == 0x1B {
        String::from_str("Pipe")
    } else if t == 0x1A {
        String::from_str("Socket")
    } else {
        String::from_str("Other")
    }
}

/// The description line for one open resource: its classification and the
/// raw handle value in hexadecimal.
pub open spec fn spec_resource_line(h: SYSTEM_HANDLE) -> Seq<char> {
    spec_handle_type_label(h.ObjectTypeNumber) + ": Handle=0x"@ + spec_hex_upper(h.Handle as int)
}

fn resource_line(h: &SYSTEM_HANDLE) -> (s: String)
    ensures
        s@ == spec_resource_line(*h),
{
    let label = handle_type_label(h.ObjectTypeNumber);
    let hex = u64_to_hex_upper(h.Handle as u64);
    let s = label.concat(": Handle=0x");
    s.concat(hex.as_str())
}

/// One row of the open-resource descriptions.
pub open spec fn resource_row_ok(
    table: Seq<SYSTEM_HANDLE>,
    pid: u32,
    n: int,
    j: int,
    line: String,
) -> bool {
    let k = handle_sel_upto(table, pid, n)[j];
    0 <= k < table.len() && k < n && line@ == spec_resource_line(table[k])
}

/// Counts the handles of `pid` in the table and describes each as an open
/// resource, or reports both unavailable where the table query failed.
/// The count fits the table header's 32-bit count field.
pub fn get_process_handles_and_resources(table: Option<&Vec<SYSTEM_HANDLE>>, pid: u32) -> (r: (
    Option<u32>,
    Option<Vec<String>>,
))
    requires
        match table {
            Some(t) => t@.len() <= u32::MAX,
            None => true,
        },
    ensures
        match table {
            None => r.0 is None && r.1 is None,
            Some(t) => {
                &&& r.0 == Some(handle_sel_upto(t@, pid, t@.len() as int).len() as u32)
                &&& r.1 is Some
                &&& r.1->Some_0@.len() == handle_sel_upto(t@, pid, t@.len() as int).len()
                &&& forall|j: int|
                    0 <= j < r.1->Some_0@.len() ==> resource_row_ok(
                        t@,
                        pid,
                        t@.len() as int,
                        j,
                        #[trigger] r.1->Some_0@[j],
                    )
            },
        },
{
    let t = match table {
        Some(t) => t,
        None => {
            return (None, None);
        },
    };
    let n = t.len();
    let mut lines: Vec<String> = Vec::new();
    let mut i: usize = 0;
    while i < n
        invariant
            n == t@.len(),
            n <= u32::MAX,
            i <= n,
            lines@.len() == handle_sel_upto(t@, pid, i as int).len(),
            forall|j: int|
                0 <= j < lines@.len() ==> resource_row_ok(
                    t@,
                    pid,
                    i as int,
                    j,
                    #[trigger] lines@[j],
                ),
        decreases n - i,
    {
        proof {
            assert(handle_sel_upto(t@, pid, i as int + 1) == handle_sel_upto(t@, pid, i as int) + (
            if t@[i as int].ProcessId == pid {
                seq![i as int]
            } else {
                Seq::<int>::empty()
            }));
        }
        if t[i].ProcessId == pid {
            let line = resource_line(&t[i]);
            lines.push(line);
            proof {
                assert forall|j: int| 0 <= j < lines@.len() implies resource_row_ok(
                    t@,
                    pid,
                    i as int + 1,
                    j,
                    #[trigger] lines@[j],
                ) by {
                    let sel = handle_sel_upto(t@, pid, i as int + 1);
                    if j < lines@.len() - 1 {
                        assert(sel[j] == handle_sel_upto(t@, pid, i as int)[j]);
                    } else {
                        assert(sel[j] == i as int);
                    }
                }
            }
        } else {
            proof {
                assert(handle_sel_upto(t@, pid, i as int + 1) =~= handle_sel_upto(
                    t@,
                    pid,
                    i as int,
                ));
            }
        }
        i = i + 1;
    }
    proof {
        lemma_handle_sel_range(t@, pid, n as int);
        assert(i as int == t@.len() as int);
    }
    let count = lines.len() as u32;
    (Some(count), Some(lines))
}

/// How one handle-table query ended: a table, the growth bound exhausted,
/// or a hard failure.
pub enum HandleTableOutcome {
    Table(Vec<SYSTEM_HANDLE>),
    Exhausted,
    Failed,
}

/// One row of the handle endpoint's listing: the raw record, its type
/// number passed through the text sanitizer as every free-text field is.
pub open spec fn endpoint_handle_row_ok(
    table: Seq<SYSTEM_HANDLE>,
    pid: u32,
    n: int,
    j: int,
    r: HandleInfo,
) -> bool {
    let k = handle_sel_upto(table, pid, n)[j];
    &&& 0 <= k < table.len()
    &&& k < n
    &&& r.handle == table[k].Handle
    &&& r.object_type@ == decode_spec(spec_decimal(table[k].ObjectTypeNumber as int))
    &&& r.name@ == Seq::<char>::empty()
    &&& r.access == table[k].GrantedAccess
}

/// The open handles of process `pid`, gated on privilege. Refused before
/// any query where the privilege check failed; an exhausted growth bound is
/// a query overflow; a hard table-query failure yields no handles rather
/// than a failed operation.
pub fn list_process_handles(elevated: bool, outcome: &HandleTableOutcome, pid: u32) -> (r: Result<
    Vec<HandleInfo>,
    CollectError,
>)
    ensures
        !elevated ==> r is Err && r->Err_0 == CollectError::Unauthorized,
        elevated ==> match outcome {
            HandleTableOutcome::Table(t) => r is Ok && r->Ok_0@.len() == handle_sel_upto(
                t@,
                pid,
                t@.len() as int,
            ).len() && forall|j: int|
                0 <= j < r->Ok_0@.len() ==> endpoint_handle_row_ok(
                    t@,
                    pid,
                    t@.len() as int,
                    j,
                    #[trigger] r->Ok_0@[j],
                ),
            HandleTableOutcome::Exhausted => r is Err && r->Err_0 == CollectError::QueryOverflow,
            HandleTableOutcome::Failed => r is Ok && r->Ok_0@.len() == 0,
        },
{
    if !elevated {
        return Err(CollectError::Unauthorized);
    }
    match outcome {
        HandleTableOutcome::Table(t) => {
            let raw = get_handles_for_process(t, pid);
            let mut decoded: Vec<HandleInfo> = Vec::new();
            let n = raw.len();
            let mut i: usize = 0;
            while i < n
                invariant
                    n == raw@.len(),
                    i <= n,
                    decoded@.len() == i,
                    raw@.len() == handle_sel_upto(t@, pid, t@.len() as int).len(),
                    forall|j: int|
                        0 <= j < raw@.len() ==> handle_row_ok(
                            t@,
                            pid,
                            t@.len() as int,
                            j,
                            #[trigger] raw@[j],
                        ),
                    forall|j: int|
                        0 <= j < i ==> endpoint_handle_row_ok(
                            t@,
                            pid,
                            t@.len() as int,
                            j,
                            #[trigger] decoded@[j],
                        ),
                decreases n - i,
            {
                let object_type = decode_if_encoded(raw[i].object_type.as_str());
                let r = HandleInfo {
                    handle: raw[i].handle,
                    object_type,
                    name: String::new(),
                    access: raw[i].access,
                };
                decoded.push(r);
                i = i + 1;
            }
            Ok(decoded)
        },
        HandleTableOutcome::Exhausted => Err(CollectError::QueryOverflow),
        HandleTableOutcome::Failed => Ok(Vec::new()),
    }
}

} // verus!
