use vstd::prelude::*;

verus! {

/// What the driving loop does after a finished cycle: run another one
/// after the fixed inter-cycle delay, or stop and hand control back.
#[derive(Clone, Copy, Debug, PartialEq, Eq, Structural)]
pub enum SchedulerDecision {
    RunAnotherCycle,
    Stop,
}

/// Decides the scheduler's next move after one cycle.
///
/// Law: in single-shot mode (`cron == true`) exactly one cycle runs —
/// the decision is `Stop` whatever the cycle's outcome.
///
/// Law: a cycle error always propagates — the decision is `Stop`, so no
/// further cycle is attempted; only a successful cycle in loop mode
/// leads to another cycle.
pub fn after_cycle(cron: bool, cycle_failed: bool) -> (r: SchedulerDecision)
    ensures
        cycle_failed ==> r == SchedulerDecision::Stop,
        cron ==> r == SchedulerDecision::Stop,
        !cycle_failed && !cron ==> r == SchedulerDecision::RunAnotherCycle,
{
    if cycle_failed || cron {
        SchedulerDecision::Stop
    } else {
        SchedulerDecision::RunAnotherCycle
    }
}

/// The process exit status once the scheduler stops: zero after a
/// successful cycle, non-zero after any error.
pub fn exit_code(cycle_failed: bool) -> (r: i32)
    ensures
        r == if cycle_failed {
            1i32
        } else {
            0i32
        },
{
    if cycle_failed {
        1
    } else {
        0
    }
}

} // verus!
