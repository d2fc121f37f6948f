use cloudflare_ddns::scheduler::{after_cycle, exit_code, SchedulerDecision};

#[test]
fn single_shot_mode_stops_after_one_cycle_whatever_the_outcome() {
    assert_eq!(after_cycle(true, false), SchedulerDecision::Stop);
    assert_eq!(after_cycle(true, true), SchedulerDecision::Stop);
}

#[test]
fn loop_mode_stops_on_a_cycle_error() {
    assert_eq!(after_cycle(false, true), SchedulerDecision::Stop);
}

#[test]
fn loop_mode_continues_after_a_successful_cycle() {
    assert_eq!(after_cycle(false, false), SchedulerDecision::RunAnotherCycle);
}

#[test]
fn exit_status_is_zero_only_on_success() {
    assert_eq!(exit_code(false), 0);
    assert_eq!(exit_code(true), 1);
}
