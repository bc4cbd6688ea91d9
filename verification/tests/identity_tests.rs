use redpitaya_mercury::hwid::{HwId, HwIdRegs};
use redpitaya_mercury::management::Management;

fn id_regs() -> HwIdRegs {
    HwIdRegs {
        hwid: 0x0001_0002,
        efuse: 0x1234_5678,
        dna: [0x89ab_cdef, 0x0000_0001],
        gith: [0x1111_1111, 0x2222_2222, 0x3333_3333, 0x4444_4444, 0x5555_5555],
    }
}

#[test]
fn hwid_words_are_returned() {
    let id = HwId::new(id_regs());
    assert_eq!(id.hwid(), 0x0001_0002);
    assert_eq!(id.efuse(), 0x1234_5678);
}

#[test]
fn dna_combines_both_words() {
    let id = HwId::new(id_regs());
    assert_eq!(id.dna(), 0x1_89ab_cdef);
}

#[test]
fn gith_prints_words_most_significant_first() {
    let id = HwId::new(id_regs());
    assert_eq!(
        id.gith(),
        "5555555544444444333333332222222211111111"
    );
}

#[test]
fn gith_prints_every_hex_digit() {
    let regs = HwIdRegs {
        hwid: 0,
        efuse: 0,
        dna: [0, 0],
        gith: [0x0123_4567, 0, 0, 0, 0x89ab_cdef],
    };
    let id = HwId::new(regs);
    assert_eq!(
        id.gith(),
        "89abcdef00000000000000000000000001234567"
    );
}

#[test]
fn management_round_trips_registers() {
    let mut mgmt = Management::new();
    assert_eq!(mgmt.gpio_mode(), 0);
    assert_eq!(mgmt.gen_osc_loop(), 0);
    mgmt.set_gpio_mode(0x00ff);
    mgmt.set_gen_osc_loop(0x3);
    assert_eq!(mgmt.gpio_mode(), 0x00ff);
    assert_eq!(mgmt.gen_osc_loop(), 0x3);
    mgmt.set_defaults();
    assert_eq!(mgmt.gpio_mode(), 0);
    assert_eq!(mgmt.gen_osc_loop(), 0);
}
