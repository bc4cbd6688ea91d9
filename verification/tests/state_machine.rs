use redpitaya_mercury::event::{AcquisitionState, EventRegs, EventRegsAPI};
use redpitaya_mercury::la::LogicAnalyzer;

#[test]
fn power_up_is_idle() {
    let la = LogicAnalyzer::new();
    assert_eq!(la.acquisition_state(), AcquisitionState::Idle);
    assert!(!la.is_running());
    assert!(!la.is_triggered());
}

#[test]
fn reset_twice_stays_idle() {
    let mut la = LogicAnalyzer::new();
    la.reset();
    la.reset();
    assert_eq!(la.acquisition_state(), AcquisitionState::Idle);
    assert!(!la.is_triggered());
}

#[test]
fn reset_clears_a_completed_capture() {
    let mut ev = EventRegs::new();
    ev.start_trigger();
    ev.observe_status(false, true);
    assert_eq!(redpitaya_mercury::event::state_of(ev.running, ev.triggered),
        AcquisitionState::Stopped);
    ev.reset();
    ev.reset();
    assert_eq!(redpitaya_mercury::event::state_of(ev.running, ev.triggered),
        AcquisitionState::Idle);
}

#[test]
fn start_arms_without_trigger() {
    let mut la = LogicAnalyzer::new();
    la.reset();
    la.start();
    assert_eq!(la.acquisition_state(), AcquisitionState::Armed);
    assert!(la.is_running());
    assert!(!la.is_triggered());
}

#[test]
fn start_trigger_runs_triggered() {
    let mut la = LogicAnalyzer::new();
    la.reset();
    la.start_trigger();
    assert_eq!(la.acquisition_state(), AcquisitionState::Triggered);
    assert!(la.is_running());
    assert!(la.is_triggered());
}

#[test]
fn trigger_ignored_while_idle() {
    let mut la = LogicAnalyzer::new();
    la.reset();
    la.trigger();
    assert_eq!(la.acquisition_state(), AcquisitionState::Idle);
    assert!(!la.is_triggered());
}

#[test]
fn completion_reflects_trigger() {
    let mut la = LogicAnalyzer::new();
    la.reset();
    la.start_trigger();
    la.update_status(false, true);
    assert_eq!(la.acquisition_state(), AcquisitionState::Stopped);
    assert!(la.is_triggered());

    let mut other = LogicAnalyzer::new();
    other.reset();
    other.start();
    other.update_status(false, false);
    assert_eq!(other.acquisition_state(), AcquisitionState::Idle);
    assert!(!other.is_triggered());
}

#[test]
fn stop_halts_the_engine() {
    let mut la = LogicAnalyzer::new();
    la.start();
    la.stop();
    assert!(!la.is_running());
}
