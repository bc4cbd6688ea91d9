use redpitaya_mercury::config::AcquisitionConfig;
use redpitaya_mercury::la::LogicAnalyzer;
use redpitaya_mercury::event::{SyncSource, TriggerSource};
use redpitaya_mercury::config::ConfigError;
use redpitaya_mercury::la_mask::{decode_decimation, encode_decimation};

#[test]
fn sync_source_codes() {
    assert_eq!(SyncSource::Gen0.code(), 0);
    assert_eq!(SyncSource::Gen1.code(), 1);
    assert_eq!(SyncSource::Osc0.code(), 2);
    assert_eq!(SyncSource::Osc1.code(), 3);
    assert_eq!(SyncSource::Lg.code(), 4);
    assert_eq!(SyncSource::La.code(), 5);
}

#[test]
fn sync_source_round_trip() {
    for code in 0u32..6 {
        let s = SyncSource::try_from(code).unwrap();
        assert_eq!(s.code(), code);
    }
}

#[test]
fn sync_source_out_of_range() {
    assert!(SyncSource::try_from(6).is_err());
    assert!(SyncSource::try_from(0xffff_ffff).is_err());
}

#[test]
fn trigger_source_codes() {
    assert_eq!(TriggerSource::Gen0.code(), 0x01);
    assert_eq!(TriggerSource::Gen1.code(), 0x02);
    assert_eq!(TriggerSource::Osc0.code(), 0x04);
    assert_eq!(TriggerSource::Osc1.code(), 0x08);
    assert_eq!(TriggerSource::Lg.code(), 0x10);
    assert_eq!(TriggerSource::La.code(), 0x20);
}

#[test]
fn trigger_source_round_trip() {
    for bit in 0u32..6 {
        let code = 1u32 << bit;
        let t = TriggerSource::try_from(code).unwrap();
        assert_eq!(t.code(), code);
    }
}

#[test]
fn trigger_source_rejects_non_one_hot() {
    assert!(TriggerSource::try_from(0).is_err());
    assert!(TriggerSource::try_from(0x03).is_err());
    assert!(TriggerSource::try_from(0x40).is_err());
}

#[test]
fn decimation_round_trip() {
    for dec in [1u32, 2, 1000, 10000, 0xffff_ffff] {
        let stored = encode_decimation(dec).unwrap();
        assert_eq!(stored, dec - 1);
        assert_eq!(decode_decimation(stored), dec);
    }
}

#[test]
fn decimation_zero_rejected() {
    assert_eq!(encode_decimation(0), Err(ConfigError::DecimationZero));
}

fn base_config() -> AcquisitionConfig {
    AcquisitionConfig {
        decimation: 1,
        input_mask: 0,
        input_polarity: 0,
        trigger_compare_mask: 0,
        trigger_compare_value: 0,
        pos_edge_mask: 0,
        neg_edge_mask: 0,
        pre_trigger_depth: 0,
        post_trigger_depth: 0,
        sync_source: SyncSource::La,
        trigger_source_mask: 0x20,
    }
}

#[test]
fn config_accepts_full_window() {
    let mut cfg = base_config();
    cfg.pre_trigger_depth = 8192;
    cfg.post_trigger_depth = 8192;
    assert!(cfg.validate().is_ok());
}

#[test]
fn config_rejects_decimation_zero() {
    let mut cfg = base_config();
    cfg.decimation = 0;
    assert_eq!(cfg.validate(), Err(ConfigError::DecimationZero));
}

#[test]
fn config_read_back_after_configure() {
    let mut la = LogicAnalyzer::new();
    let mut cfg = base_config();
    cfg.decimation = 10000;
    cfg.input_mask = 0xffff;
    cfg.input_polarity = 0x00ff;
    cfg.trigger_compare_mask = 0xdead;
    cfg.trigger_compare_value = 0xbeef;
    cfg.pos_edge_mask = 0x1;
    cfg.neg_edge_mask = 0x2;
    cfg.pre_trigger_depth = 100;
    cfg.post_trigger_depth = 200;
    assert!(la.configure(&cfg).is_ok());
    let read = la.read_config().unwrap();
    assert_eq!(read, cfg);
}

#[test]
fn config_rejects_depth_overflow() {
    let mut cfg = base_config();
    cfg.pre_trigger_depth = 8192;
    cfg.post_trigger_depth = 8193;
    assert_eq!(cfg.validate(), Err(ConfigError::DepthOverflow));
}
