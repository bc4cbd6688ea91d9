use redpitaya_mercury::protocol::{
    chunk_payload, command_of_code, hwid_response, parse_command, truncate_samples, widen_samples,
    Command, MAX_PAYLOAD,
};

#[test]
fn numeric_codes_map_to_commands() {
    assert_eq!(command_of_code(0), Command::HwId);
    assert_eq!(command_of_code(1), Command::ConfigGet);
    assert_eq!(command_of_code(2), Command::ConfigSet);
    assert_eq!(command_of_code(3), Command::AcquisitionStart);
    assert_eq!(command_of_code(4), Command::AcquisitionStop);
    assert_eq!(command_of_code(5), Command::Unknown);
    assert_eq!(command_of_code(0xff), Command::Unknown);
}

#[test]
fn parse_numeric_hwid_and_compat_star_agree() {
    assert_eq!(parse_command(&vec![0x00, 0, 0, 0, 0]), Command::HwId);
    assert_eq!(parse_command(&vec![b'*', b'I', b'D', b'N', b'?']), Command::HwId);
}

#[test]
fn parse_unknown_code() {
    assert_eq!(parse_command(&vec![0x05, 0, 0, 0, 0]), Command::Unknown);
}

#[test]
fn parse_short_read_is_error() {
    assert_eq!(parse_command(&vec![]), Command::Error);
    assert_eq!(parse_command(&vec![0x03, 0, 0]), Command::Error);
    assert_eq!(parse_command(&vec![0x03, 0, 0, 0, 0, 0]), Command::Error);
}

#[test]
fn truncate_keeps_low_bytes() {
    let samples = vec![0x0000u16, 0x00ff, 0x0100, 0xabcd];
    assert_eq!(truncate_samples(&samples), vec![0x00u8, 0xff, 0x00, 0xcd]);
}

#[test]
fn widen_keeps_both_bytes() {
    let samples = vec![0x0000u16, 0xabcd];
    assert_eq!(widen_samples(&samples), vec![0x00u8, 0x00, 0xcd, 0xab]);
}

#[test]
fn chunking_empty_payload() {
    let chunks = chunk_payload(&vec![], 1460);
    assert_eq!(chunks.len(), 0);
}

#[test]
fn chunking_exact_multiple() {
    let data = vec![7u8; 2920];
    let chunks = chunk_payload(&data, 1460);
    assert_eq!(chunks.len(), 2);
    assert_eq!(chunks[0].len(), 1460);
    assert_eq!(chunks[1].len(), 1460);
}

#[test]
fn chunking_full_capture_window() {
    let mut data = Vec::new();
    for i in 0..16384usize {
        data.push((i % 256) as u8);
    }
    let chunks = chunk_payload(&data, MAX_PAYLOAD);
    assert_eq!(chunks.len(), 12);
    let mut total = 0;
    let mut flat = Vec::new();
    for c in &chunks {
        assert!(c.len() <= MAX_PAYLOAD);
        total += c.len();
        flat.extend_from_slice(c);
    }
    for c in &chunks[..chunks.len() - 1] {
        assert_eq!(c.len(), MAX_PAYLOAD);
    }
    assert_eq!(total, 16384);
    assert_eq!(flat, data);
}

#[test]
fn hwid_line_appends_serial() {
    let line = hwid_response("00:11:22:33:44:55");
    assert_eq!(line, "RedPitaya,RedPitaya,Mercury,00:11:22:33:44:55");
}
