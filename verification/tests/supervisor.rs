use railsup::output::{color_index, get_color, get_reset, tag_line};
use railsup::supervisor::{
    Next, Observation, Phase, RunError, Supervisor, POLL_INTERVAL_MS, SHUTDOWN_POLL_INTERVAL_MS,
    SHUTDOWN_TIMEOUT_MS,
};

fn observe(interrupted: bool, alive: &[bool], shutdown_elapsed_ms: u64) -> Observation {
    Observation { interrupted, alive: alive.to_vec(), shutdown_elapsed_ms }
}

#[test]
fn natural_exit_goes_straight_to_done() {
    let mut s = Supervisor::new(2, false);
    assert_eq!(s.phase(), Phase::Running);
    assert_eq!(s.children(), 2);

    let step = s.step(&observe(false, &[true, true], 0));
    assert_eq!(step.after, Next::Wait(POLL_INTERVAL_MS));
    assert_eq!(step.terminate, vec![false, false]);
    assert_eq!(step.kill, vec![false, false]);
    assert_eq!(s.phase(), Phase::Running);

    let step = s.step(&observe(false, &[false, true], 0));
    assert_eq!(step.after, Next::Wait(100));
    assert_eq!(s.phase(), Phase::Running);

    let step = s.step(&observe(false, &[false, false], 0));
    assert_eq!(step.after, Next::JoinReaders);
    assert_eq!(step.terminate, vec![false, false]);
    assert_eq!(step.kill, vec![false, false]);
    assert_eq!(s.phase(), Phase::Done);
    assert_eq!(s.outcome(), Ok(()));
}

#[test]
fn interrupt_asks_every_live_child_to_terminate() {
    let mut s = Supervisor::new(3, false);
    let step = s.step(&observe(true, &[true, false, true], 0));
    assert_eq!(step.terminate, vec![true, false, true]);
    assert_eq!(step.kill, vec![false, false, false]);
    assert_eq!(step.after, Next::Wait(SHUTDOWN_POLL_INTERVAL_MS));
    assert_eq!(s.phase(), Phase::ShuttingDownGraceful);
    assert!(s.termination_requested(0));
    assert!(!s.termination_requested(1));
    assert!(s.termination_requested(2));
    assert!(!s.kill_requested(0));
}

#[test]
fn exit_within_grace_period_kills_nothing() {
    let mut s = Supervisor::new(2, false);
    s.step(&observe(true, &[true, true], 0));
    let step = s.step(&observe(true, &[true, false], 50));
    assert_eq!(step.after, Next::Wait(50));
    assert_eq!(step.terminate, vec![false, false]);
    assert_eq!(step.kill, vec![false, false]);
    let step = s.step(&observe(true, &[true, false], SHUTDOWN_TIMEOUT_MS - 1));
    assert_eq!(step.kill, vec![false, false]);
    assert_eq!(s.phase(), Phase::ShuttingDownGraceful);
    let step = s.step(&observe(true, &[false, false], 2999));
    assert_eq!(step.after, Next::JoinReaders);
    assert_eq!(step.kill, vec![false, false]);
    assert_eq!(s.phase(), Phase::Done);
    assert!(!s.kill_requested(0));
    assert!(!s.kill_requested(1));
    assert_eq!(s.outcome(), Ok(()));
}

#[test]
fn survivors_are_killed_exactly_once() {
    let mut s = Supervisor::new(3, false);
    s.step(&observe(true, &[true, true, true], 0));
    let step = s.step(&observe(false, &[true, false, true], SHUTDOWN_TIMEOUT_MS));
    assert_eq!(step.kill, vec![true, false, true]);
    assert_eq!(step.terminate, vec![false, false, false]);
    assert_eq!(step.after, Next::Wait(0));
    assert_eq!(s.phase(), Phase::ShuttingDownForced);
    assert!(s.kill_requested(0));
    assert!(!s.kill_requested(1));

    let step = s.step(&observe(true, &[true, false, true], 3001));
    assert_eq!(step.kill, vec![false, false, false]);
    assert_eq!(step.terminate, vec![false, false, false]);
    assert_eq!(step.after, Next::JoinReaders);
    assert_eq!(s.phase(), Phase::Done);

    let step = s.step(&observe(true, &[true, true, true], 9000));
    assert_eq!(step.kill, vec![false, false, false]);
    assert_eq!(step.terminate, vec![false, false, false]);
    assert_eq!(step.after, Next::JoinReaders);
    assert_eq!(s.phase(), Phase::Done);
}

#[test]
fn interrupt_with_no_child_alive_is_done() {
    let mut s = Supervisor::new(2, false);
    let step = s.step(&observe(true, &[false, false], 0));
    assert_eq!(step.after, Next::JoinReaders);
    assert_eq!(step.terminate, vec![false, false]);
    assert_eq!(s.phase(), Phase::Done);
}

#[test]
fn no_children_is_done_at_once() {
    let mut s = Supervisor::new(0, false);
    let step = s.step(&observe(false, &[], 0));
    assert_eq!(step.after, Next::JoinReaders);
    assert!(step.terminate.is_empty());
    assert!(step.kill.is_empty());
    assert_eq!(s.phase(), Phase::Done);
}

#[test]
fn spawn_failure_shuts_the_siblings_down() {
    let mut s = Supervisor::new(2, true);
    let step = s.step(&observe(false, &[true, true], 0));
    assert_eq!(step.terminate, vec![true, true]);
    assert_eq!(s.phase(), Phase::ShuttingDownGraceful);
    let step = s.step(&observe(false, &[false, false], 10));
    assert_eq!(step.after, Next::JoinReaders);
    assert_eq!(s.outcome(), Err(RunError::SpawnFailure));
}

#[test]
fn nonzero_exit_of_one_child_is_not_fatal() {
    let mut s = Supervisor::new(2, false);
    let step = s.step(&observe(false, &[false, true], 0));
    assert_eq!(step.after, Next::Wait(100));
    assert_eq!(step.terminate, vec![false, false]);
    assert_eq!(s.phase(), Phase::Running);
}

#[test]
fn colors_cycle_through_the_palette() {
    assert_eq!(get_color(0, true), "\x1b[36m");
    assert_eq!(get_color(1, true), "\x1b[35m");
    assert_eq!(get_color(2, true), "\x1b[33m");
    assert_eq!(get_color(3, true), "\x1b[32m");
    assert_eq!(get_color(4, true), "\x1b[34m");
    assert_eq!(get_color(5, true), "\x1b[36m");
    assert_eq!(get_color(12, true), "\x1b[33m");
    assert_eq!(get_color(usize::MAX, true), get_color(usize::MAX % 5, true));
    assert_eq!(color_index(7), 2);
    assert_eq!(get_reset(true), "\x1b[0m");
}

#[test]
fn colors_are_empty_without_a_terminal() {
    assert_eq!(get_color(0, false), "");
    assert_eq!(get_color(3, false), "");
    assert_eq!(get_reset(false), "");
}

#[test]
fn lines_are_tagged() {
    assert_eq!(
        tag_line(get_color(1, true), "web", get_reset(true), "Listening on 3000"),
        "\x1b[35m[web]\x1b[0m Listening on 3000"
    );
    assert_eq!(tag_line("", "css", "", "done"), "[css] done");
    assert_eq!(tag_line("", "css", "", ""), "[css] ");
}
