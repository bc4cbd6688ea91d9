use redpitaya_mercury::acquire::AcquireRegsAPI;
use redpitaya_mercury::config::AcquisitionConfig;
use redpitaya_mercury::event::{AcquisitionState, EventRegsAPI, SyncSource};
use redpitaya_mercury::la::LogicAnalyzer;
use redpitaya_mercury::la_mask::LaMaskRegsAPI;
use redpitaya_mercury::protocol::MAX_PAYLOAD;
use redpitaya_mercury::session::{SessionAction, StreamingSession};

#[test]
fn dispatch_maps_every_command() {
    let session = StreamingSession::new(LogicAnalyzer::new());
    assert_eq!(session.handle_request(&vec![0, 0, 0, 0, 0]), SessionAction::SendHwId);
    assert_eq!(session.handle_request(&vec![b'*', 0, 0, 0, 0]), SessionAction::SendHwId);
    assert_eq!(session.handle_request(&vec![1, 0, 0, 0, 0]), SessionAction::SendConfig);
    assert_eq!(session.handle_request(&vec![2, 0, 0, 0, 0]), SessionAction::ApplyConfig);
    assert_eq!(session.handle_request(&vec![3, 0, 0, 0, 0]), SessionAction::StartStreaming);
    assert_eq!(session.handle_request(&vec![4, 0, 0, 0, 0]), SessionAction::StopStreaming);
    assert_eq!(session.handle_request(&vec![9, 0, 0, 0, 0]), SessionAction::AwaitNext);
    assert_eq!(session.handle_request(&vec![3, 0]), SessionAction::AwaitNext);
}

#[test]
fn capture_and_stream_scenario() {
    // Configure: decimation 10000, all inputs unmasked, the capture
    // window split evenly around the trigger, software-driven source.
    let mut la = LogicAnalyzer::new();
    let cfg = AcquisitionConfig {
        decimation: 10000,
        input_mask: 0xffff,
        input_polarity: 0xffff,
        trigger_compare_mask: 0,
        trigger_compare_value: 0,
        pos_edge_mask: 0,
        neg_edge_mask: 0,
        pre_trigger_depth: 8192,
        post_trigger_depth: 8192,
        sync_source: SyncSource::La,
        trigger_source_mask: 0x20,
    };
    assert!(la.configure(&cfg).is_ok());
    assert_eq!(la.decimation(), 10000);
    assert_eq!(la.input_mask(), 0xffff);
    assert_eq!(la.trigger_pre(), 8192);
    assert_eq!(la.trigger_post(), 8192);

    let mut session = StreamingSession::new(la);
    assert_eq!(
        session.handle_request(&vec![3, 0, 0, 0, 0]),
        SessionAction::StartStreaming
    );

    // The capture cycle as the hardware would drive it.
    assert_eq!(session.la.acquisition_state(), AcquisitionState::Idle);
    session.la.reset();
    session.la.start();
    assert_eq!(session.la.acquisition_state(), AcquisitionState::Armed);
    session.la.trigger();
    assert_eq!(session.la.acquisition_state(), AcquisitionState::Triggered);
    session.la.update_status(false, true);
    assert_eq!(session.la.acquisition_state(), AcquisitionState::Stopped);
    session.la.record_status(8192, 8192);

    // The full window leaves as 16384 truncated bytes in 12 writes.
    let mut buffer = Vec::new();
    for i in 0..16384usize {
        buffer.push((i % 65536) as u16);
    }
    let chunks = session.stream_chunks(&buffer, false).unwrap();
    assert_eq!(chunks.len(), 12);
    let mut total = 0;
    for c in &chunks {
        assert!(c.len() <= MAX_PAYLOAD);
        total += c.len();
    }
    assert_eq!(total, 16384);
    assert_eq!(chunks[0][0], 0x00);
    assert_eq!(chunks[0][1], 0x01);
}

#[test]
fn begin_capture_runs_and_triggers() {
    let mut session = StreamingSession::new(LogicAnalyzer::new());
    session.begin_capture();
    assert_eq!(session.la.acquisition_state(), AcquisitionState::Triggered);
    assert!(session.la.is_running());
}

#[test]
fn stream_rejects_overflowed_window() {
    let mut session = StreamingSession::new(LogicAnalyzer::new());
    session.la.record_status(16384, 1);
    let buffer = vec![0u16; 16384];
    assert!(session.stream_chunks(&buffer, false).is_err());
}

#[test]
fn stream_full_width_doubles_bytes() {
    let mut session = StreamingSession::new(LogicAnalyzer::new());
    session.la.record_status(100, 100);
    let mut buffer = vec![0u16; 16384];
    buffer[0] = 0xab12;
    let chunks = session.stream_chunks(&buffer, true).unwrap();
    let total: usize = chunks.iter().map(|c| c.len()).sum();
    assert_eq!(total, 400);
    assert_eq!(chunks[0][0], 0x12);
    assert_eq!(chunks[0][1], 0xab);
}
