//! Orchestration of one snapshot request.
//!
//! A snapshot request runs a fixed sequence: the privilege gate first, then a
//! baseline rate sample, the fixed wait, the second sample, the process
//! table, the per-process detail queries, the drives, and the summary facts.
//! The driver performing the blocking native queries is unverified glue, so
//! the sequence itself is a verified machine: the driver asks for the next
//! action, performs it, and reports the outcome as an event. The machine
//! guarantees the two samples are strictly ordered (baseline before delta),
//! and that a refused request issues no native query at all.

use vstd::prelude::*;

verus! {

/// The privilege gate's verdict.
#[derive(Clone, Copy, Debug, PartialEq, Eq, Structural)]
pub enum GateDecision {
    Authorized,
    Unauthorized,
}

/// The privilege gate: evaluated once per request, before any privileged
/// query, with no side effect beyond the check itself.
pub fn privilege_gate(elevated: bool) -> (g: GateDecision)
    ensures
        g == (if elevated {
            GateDecision::Authorized
        } else {
            GateDecision::Unauthorized
        }),
{
    if elevated {
        GateDecision::Authorized
    } else {
        GateDecision::Unauthorized
    }
}

/// Where one snapshot request stands.
#[derive(Clone, Copy, Debug, PartialEq, Eq, Structural)]
pub enum SnapshotPhase {
    /// Nothing has run; the privilege check is next.
    Start,
    /// Gate passed; the baseline sample is next.
    AwaitBaseline,
    /// Baseline taken; the fixed wait is next.
    AwaitWait,
    /// Wait elapsed; the second sample is next.
    AwaitSecond,
    /// Both samples taken; the process table is next.
    AwaitProcessTable,
    /// Process identifiers known; the per-process detail queries are next.
    AwaitProbes,
    /// Details gathered; the drive queries are next.
    AwaitDrives,
    /// Drives read; the summary facts are next.
    AwaitSummary,
    /// Everything gathered; assemble and emit the snapshot.
    Done,
    /// The privilege check failed; nothing was or will be queried.
    Refused,
}

/// What the driver must do next.
#[derive(Clone, Copy, Debug, PartialEq, Eq, Structural)]
pub enum SnapshotAction {
    CheckPrivilege,
    TakeBaselineSample,
    WaitInterval,
    TakeSecondSample,
    QueryProcessTable,
    QueryProcessDetails,
    QueryDrives,
    QuerySummaryFacts,
    Emit,
    Refuse,
}

/// What the driver reports back after performing an action.
#[derive(Clone, Copy, Debug, PartialEq, Eq, Structural)]
pub enum SnapshotEvent {
    PrivilegeChecked(bool),
    BaselineTaken,
    WaitElapsed,
    SecondTaken,
    ProcessTableRead,
    DetailsRead,
    DrivesRead,
    SummaryFactsRead,
}

/// One snapshot request in flight: its phase, and how many native queries
/// the machine has told the driver to issue so far.
#[derive(Clone, Copy, Debug, PartialEq, Eq, Structural)]
pub struct SnapshotMachine {
    pub phase: SnapshotPhase,
    pub queries_issued: u64,
}

/// The action each phase calls for.
pub open spec fn spec_action(phase: SnapshotPhase) -> SnapshotAction {
    match phase {
        SnapshotPhase::Start => SnapshotAction::CheckPrivilege,
        SnapshotPhase::AwaitBaseline => SnapshotAction::TakeBaselineSample,
        SnapshotPhase::AwaitWait => SnapshotAction::WaitInterval,
        SnapshotPhase::AwaitSecond => SnapshotAction::TakeSecondSample,
        SnapshotPhase::AwaitProcessTable => SnapshotAction::QueryProcessTable,
        SnapshotPhase::AwaitProbes => SnapshotAction::QueryProcessDetails,
        SnapshotPhase::AwaitDrives => SnapshotAction::QueryDrives,
        SnapshotPhase::AwaitSummary => SnapshotAction::QuerySummaryFacts,
        SnapshotPhase::Done => SnapshotAction::Emit,
        SnapshotPhase::Refused => SnapshotAction::Refuse,
    }
}

/// The actions that issue a blocking native query. The privilege check and
/// the wait are not queries; emitting and refusing do no work.
pub open spec fn is_query(a: SnapshotAction) -> bool {
    match a {
        SnapshotAction::TakeBaselineSample => true,
        SnapshotAction::TakeSecondSample => true,
        SnapshotAction::QueryProcessTable => true,
        SnapshotAction::QueryProcessDetails => true,
        SnapshotAction::QueryDrives => true,
        SnapshotAction::QuerySummaryFacts => true,
        _ => false,
    }
}

/// A request that has ended, one way or the other.
pub open spec fn is_terminal(phase: SnapshotPhase) -> bool {
    phase == SnapshotPhase::Done || phase == SnapshotPhase::Refused
}

/// The event each phase's action reports.
pub open spec fn event_fits(phase: SnapshotPhase, e: SnapshotEvent) -> bool {
    match phase {
        SnapshotPhase::Start => e is PrivilegeChecked,
        SnapshotPhase::AwaitBaseline => e == SnapshotEvent::BaselineTaken,
        SnapshotPhase::AwaitWait => e == SnapshotEvent::WaitElapsed,
        SnapshotPhase::AwaitSecond => e == SnapshotEvent::SecondTaken,
        SnapshotPhase::AwaitProcessTable => e == SnapshotEvent::ProcessTableRead,
        SnapshotPhase::AwaitProbes => e == SnapshotEvent::DetailsRead,
        SnapshotPhase::AwaitDrives => e == SnapshotEvent::DrivesRead,
        SnapshotPhase::AwaitSummary => e == SnapshotEvent::SummaryFactsRead,
        SnapshotPhase::Done => false,
        SnapshotPhase::Refused => false,
    }
}

/// The phase after one event.
pub open spec fn spec_next_phase(phase: SnapshotPhase, e: SnapshotEvent) -> SnapshotPhase {
    match phase {
        SnapshotPhase::Start => if e == SnapshotEvent::PrivilegeChecked(true) {
            SnapshotPhase::AwaitBaseline
        } else {
            SnapshotPhase::Refused
        },
        SnapshotPhase::AwaitBaseline => SnapshotPhase::AwaitWait,
        SnapshotPhase::AwaitWait => SnapshotPhase::AwaitSecond,
        SnapshotPhase::AwaitSecond => SnapshotPhase::AwaitProcessTable,
        SnapshotPhase::AwaitProcessTable => SnapshotPhase::AwaitProbes,
        SnapshotPhase::AwaitProbes => SnapshotPhase::AwaitDrives,
        SnapshotPhase::AwaitDrives => SnapshotPhase::AwaitSummary,
        SnapshotPhase::AwaitSummary => SnapshotPhase::Done,
        _ => phase,
    }
}

/// How many native queries the fixed sequence has issued by the time it
/// stands in a phase.
pub open spec fn spec_queries_of_phase(phase: SnapshotPhase) -> u64 {
    match phase {
        SnapshotPhase::Start => 0,
        SnapshotPhase::AwaitBaseline => 1,
        SnapshotPhase::AwaitWait => 1,
        SnapshotPhase::AwaitSecond => 2,
        SnapshotPhase::AwaitProcessTable => 3,
        SnapshotPhase::AwaitProbes => 4,
        SnapshotPhase::AwaitDrives => 5,
        SnapshotPhase::AwaitSummary => 6,
        SnapshotPhase::Done => 6,
        SnapshotPhase::Refused => 0,
    }
}

/// The machine's invariant: the query count is exactly what its phase has
/// issued.
pub open spec fn machine_inv(m: SnapshotMachine) -> bool {
    m.queries_issued == spec_queries_of_phase(m.phase)
}

/// A fresh request: at the start, nothing queried.
pub fn new_request() -> (m: SnapshotMachine)
    ensures
        m.phase == SnapshotPhase::Start,
        m.queries_issued == 0,
        machine_inv(m),
{
    SnapshotMachine { phase: SnapshotPhase::Start, queries_issued: 0 }
}

/// The action the driver must perform next.
pub fn next_action(m: &SnapshotMachine) -> (a: SnapshotAction)
    ensures
        a == spec_action(m.phase),
{
    match m.phase {
        SnapshotPhase::Start => SnapshotAction::CheckPrivilege,
        SnapshotPhase::AwaitBaseline => SnapshotAction::TakeBaselineSample,
        SnapshotPhase::AwaitWait => SnapshotAction::WaitInterval,
        SnapshotPhase::AwaitSecond => SnapshotAction::TakeSecondSample,
        SnapshotPhase::AwaitProcessTable => SnapshotAction::QueryProcessTable,
        SnapshotPhase::AwaitProbes => SnapshotAction::QueryProcessDetails,
        SnapshotPhase::AwaitDrives => SnapshotAction::QueryDrives,
        SnapshotPhase::AwaitSummary => SnapshotAction::QuerySummaryFacts,
        SnapshotPhase::Done => SnapshotAction::Emit,
        SnapshotPhase::Refused => SnapshotAction::Refuse,
    }
}

/// Advances the request by one reported event. A failed privilege check
/// refuses the request with the query count untouched — still zero — and
/// the second sample can only ever be requested after the baseline was
/// taken and the wait elapsed.
pub fn step(m: &SnapshotMachine, e: SnapshotEvent) -> (m2: SnapshotMachine)
    requires
        machine_inv(*m),
        !is_terminal(m.phase),
        event_fits(m.phase, e),
    ensures
        m2.phase == spec_next_phase(m.phase, e),
        machine_inv(m2),
        m2.queries_issued == m.queries_issued + (if is_query(spec_action(m2.phase)) {
            1u64
        } else {
            0u64
        }),
        m.phase == SnapshotPhase::Start && e == SnapshotEvent::PrivilegeChecked(false)
            ==> m2.phase == SnapshotPhase::Refused && m2.queries_issued == 0,
        m2.phase == SnapshotPhase::AwaitSecond ==> m.phase == SnapshotPhase::AwaitWait,
{
    let next_phase = match (m.phase, e) {
        (SnapshotPhase::Start, SnapshotEvent::PrivilegeChecked(true)) => {
            SnapshotPhase::AwaitBaseline
        },
        (SnapshotPhase::Start, _) => SnapshotPhase::Refused,
        (SnapshotPhase::AwaitBaseline, _) => SnapshotPhase::AwaitWait,
        (SnapshotPhase::AwaitWait, _) => SnapshotPhase::AwaitSecond,
        (SnapshotPhase::AwaitSecond, _) => SnapshotPhase::AwaitProcessTable,
        (SnapshotPhase::AwaitProcessTable, _) => SnapshotPhase::AwaitProbes,
        (SnapshotPhase::AwaitProbes, _) => SnapshotPhase::AwaitDrives,
        (SnapshotPhase::AwaitDrives, _) => SnapshotPhase::AwaitSummary,
        (SnapshotPhase::AwaitSummary, _) => SnapshotPhase::Done,
        (p, _) => p,
    };
    let queries = match next_phase {
        SnapshotPhase::Start => 0,
        SnapshotPhase::AwaitBaseline => 1,
        SnapshotPhase::AwaitWait => 1,
        SnapshotPhase::AwaitSecond => 2,
        SnapshotPhase::AwaitProcessTable => 3,
        SnapshotPhase::AwaitProbes => 4,
        SnapshotPhase::AwaitDrives => 5,
        SnapshotPhase::AwaitSummary => 6,
        SnapshotPhase::Done => 6,
        SnapshotPhase::Refused => 0,
    };
    SnapshotMachine { phase: next_phase, queries_issued: queries }
}

/// Law: a request that the privilege check turned away has issued no native
/// query, and never will — its phase is terminal.
pub proof fn lemma_refused_means_no_queries(m: SnapshotMachine)
    requires
        machine_inv(m),
        m.phase == SnapshotPhase::Refused,
    ensures
        m.queries_issued == 0,
        is_terminal(m.phase),
{
}

/// Law: within one request the two samples are strictly ordered. The phase
/// asking for the second sample arises only from the wait phase, which
/// arises only from the baseline phase: the baseline is taken first.
pub proof fn lemma_samples_ordered(m: SnapshotMachine, e: SnapshotEvent)
    requires
        event_fits(m.phase, e),
    ensures
        spec_next_phase(m.phase, e) == SnapshotPhase::AwaitSecond ==> m.phase
            == SnapshotPhase::AwaitWait,
        spec_next_phase(m.phase, e) == SnapshotPhase::AwaitWait ==> m.phase
            == SnapshotPhase::AwaitBaseline,
{
}

} // verus!
