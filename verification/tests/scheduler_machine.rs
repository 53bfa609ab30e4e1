use strand_der::scheduler::{SchedulerAction, SchedulerCore, SimulationStatus};

#[test]
fn fresh_scheduler_is_stopped() {
    let s = SchedulerCore::new();
    assert_eq!(s.status, SimulationStatus::Stopped);
    assert_eq!(s.iteration_cnt, 0);
    assert!(!s.is_dirty);
}

#[test]
fn primary_control_cycles_start_pause_resume() {
    let mut s = SchedulerCore::new();
    // stopped -> initialise and start
    assert_eq!(s.primary_control(), SchedulerAction::InitAndSpawn);
    assert_eq!(s.status, SimulationStatus::Running);
    // running -> pause, nothing spawned
    assert_eq!(s.primary_control(), SchedulerAction::Idle);
    assert_eq!(s.status, SimulationStatus::Paused);
    // paused -> resume with a spawn
    assert_eq!(s.primary_control(), SchedulerAction::Spawn);
    assert_eq!(s.status, SimulationStatus::Running);
}

#[test]
fn step_control_always_ends_paused() {
    let mut s = SchedulerCore::new();
    assert_eq!(s.step_control(), SchedulerAction::InitAndSpawn);
    assert_eq!(s.status, SimulationStatus::Paused);
    assert_eq!(s.step_control(), SchedulerAction::Spawn);
    assert_eq!(s.status, SimulationStatus::Paused);
    let _ = s.resume_scheduler();
    assert_eq!(s.step_control(), SchedulerAction::Idle);
    assert_eq!(s.status, SimulationStatus::Paused);
}

#[test]
fn results_are_counted_and_chain_while_running() {
    let mut s = SchedulerCore::new();
    let _ = s.resume_scheduler();
    assert_eq!(s.on_result(), (true, true));
    assert_eq!(s.on_result(), (true, true));
    assert_eq!(s.iteration_cnt, 2);
    assert!(s.is_dirty);
}

#[test]
fn results_are_applied_but_not_chained_while_paused() {
    let mut s = SchedulerCore::new();
    let _ = s.singlestep_scheduler();
    assert_eq!(s.on_result(), (true, false));
    assert_eq!(s.iteration_cnt, 1);
    assert!(s.is_dirty);
}

#[test]
fn results_are_discarded_when_stopped() {
    let mut s = SchedulerCore::new();
    let _ = s.resume_scheduler();
    let _ = s.on_result();
    let _ = s.stop_scheduler();
    let dirty_before = s.is_dirty;
    assert_eq!(s.on_result(), (false, false));
    assert_eq!(s.iteration_cnt, 0);
    assert_eq!(s.is_dirty, dirty_before);
}

#[test]
fn stop_resets_the_counter_and_tears_down() {
    let mut s = SchedulerCore::new();
    let _ = s.resume_scheduler();
    let _ = s.on_result();
    assert_eq!(s.stop_scheduler(), SchedulerAction::Reset);
    assert_eq!(s.status, SimulationStatus::Stopped);
    assert_eq!(s.iteration_cnt, 0);
}

#[test]
fn init_without_start_leaves_status_alone() {
    let mut s = SchedulerCore::new();
    assert_eq!(s.init_scheduler(false), SchedulerAction::Init);
    assert_eq!(s.status, SimulationStatus::Stopped);
    assert_eq!(s.init_scheduler(true), SchedulerAction::InitAndSpawn);
    assert_eq!(s.status, SimulationStatus::Running);
}

#[test]
fn take_dirty_hands_out_each_batch_once() {
    let mut s = SchedulerCore::new();
    let _ = s.resume_scheduler();
    let _ = s.on_result();
    assert!(s.take_dirty());
    assert!(!s.take_dirty());
    assert!(!s.is_dirty);
}
