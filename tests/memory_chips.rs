use emu6502::machine::BenEaterMachine;
use emu6502::memory::Addressable;
use emu6502::memory::{HM62256BLogic, W24512ALogic, HM62256B, W24512A};
use emu6502::pin::PinDirection;

fn hm_set_state(mem: &mut HM62256B, cs: bool, we: bool, oe: bool) {
    mem.on_pin_state_change("CS", cs);
    mem.on_pin_state_change("WE", we);
    mem.on_pin_state_change("OE", oe);
}

fn hm_test_state(mem: &HM62256B, enabled: bool, can_write: bool, can_read: bool) {
    assert_eq!(enabled, mem.is_enabled());
    assert_eq!(can_write, mem.can_write());
    assert_eq!(can_read, mem.can_read());
}

fn hm_test_directions(mem: &HM62256B, dir: PinDirection) {
    for p in mem.pins.data.pins.iter() {
        assert_eq!(dir, p.direction());
    }
}

// CS2 of the W24512A is held high throughout: CS1 alone selects the chip.
fn w_set_state(mem: &mut W24512A, cs: bool, we: bool, oe: bool) {
    mem.on_pin_state_change("CS2", true);
    mem.on_pin_state_change("CS1", cs);
    mem.on_pin_state_change("WE", we);
    mem.on_pin_state_change("OE", oe);
}

fn w_test_state(mem: &W24512A, enabled: bool, can_write: bool, can_read: bool) {
    assert_eq!(enabled, mem.is_enabled());
    assert_eq!(can_write, mem.can_write());
    assert_eq!(can_read, mem.can_read());
}

fn w_test_directions(mem: &W24512A, dir: PinDirection) {
    for p in mem.pins.data.pins.iter() {
        assert_eq!(dir, p.direction());
    }
}

#[test]
fn hm62256b_test_structure() {
    let mem = HM62256B::new(HM62256BLogic::new());
    let pins = mem.pins.pins();
    assert_eq!(pins.len(), 28);
    pins.iter().for_each(|pin| {
        assert!(pin.id.is_some());
    });
}

#[test]
fn hm62256b_test_enablement() {
    let mut mem = HM62256B::new(HM62256BLogic::new());

    // CS high - component disabled
    for (we, oe) in [(0, 0), (1, 0), (0, 1), (1, 1)] {
        hm_set_state(&mut mem, true, we > 0, oe > 0);
        hm_test_state(&mem, false, false, false);
    }

    hm_set_state(&mut mem, false, false, false);
    hm_test_state(&mem, true, true, false);

    hm_set_state(&mut mem, false, true, false);
    hm_test_state(&mem, true, false, true);

    hm_set_state(&mut mem, false, false, true);
    hm_test_state(&mem, true, true, false);

    hm_set_state(&mut mem, false, true, true);
    hm_test_state(&mem, true, false, false);
}

#[test]
fn hm62256b_test_read() {
    let mut mem = HM62256B::new(HM62256BLogic::new());
    mem.logic.write_byte(0x21, 0xff); // addr: 0b100001
    hm_set_state(&mut mem, false, true, false);
    mem.on_pin_state_change("A0", true);
    mem.on_pin_state_change("A5", true);
    hm_test_directions(&mem, PinDirection::Output);
    assert_eq!(mem.pins.data.read(), 0xff);
}

#[test]
fn hm62256b_test_write() {
    let mut mem = HM62256B::new(HM62256BLogic::new());
    hm_set_state(&mut mem, false, false, true);
    mem.on_pin_state_change("A1", true);
    mem.on_pin_state_change("A2", true);
    mem.on_pin_state_change("D0", true);
    mem.on_pin_state_change("D1", true);
    hm_test_directions(&mem, PinDirection::Input);
    assert_eq!(mem.logic.read_byte(0b110), 0b11);
}

#[test]
fn w24512a_test_structure() {
    let mem = W24512A::new(W24512ALogic::new());
    let pins = mem.pins.pins();
    assert_eq!(pins.len(), 32);
    pins.iter().for_each(|pin| {
        assert!(pin.id.is_some());
    });
}

#[test]
fn w24512a_test_enablement() {
    let mut mem = W24512A::new(W24512ALogic::new());

    // CS1 high - component disabled
    for (we, oe) in [(0, 0), (1, 0), (0, 1), (1, 1)] {
        w_set_state(&mut mem, true, we > 0, oe > 0);
        w_test_state(&mem, false, false, false);
    }

    w_set_state(&mut mem, false, false, false);
    w_test_state(&mem, true, true, false);

    w_set_state(&mut mem, false, true, false);
    w_test_state(&mem, true, false, true);

    w_set_state(&mut mem, false, false, true);
    w_test_state(&mem, true, true, false);

    w_set_state(&mut mem, false, true, true);
    w_test_state(&mem, true, false, false);
}

#[test]
fn w24512a_test_read() {
    let mut mem = W24512A::new(W24512ALogic::new());
    mem.logic.write_byte(0x21, 0xff); // addr: 0b100001
    w_set_state(&mut mem, false, true, false);
    mem.on_pin_state_change("A0", true);
    mem.on_pin_state_change("A5", true);
    w_test_directions(&mem, PinDirection::Output);
    assert_eq!(mem.pins.data.read(), 0xff);
}

#[test]
fn w24512a_test_write() {
    let mut mem = W24512A::new(W24512ALogic::new());
    w_set_state(&mut mem, false, false, true);
    mem.on_pin_state_change("A1", true);
    mem.on_pin_state_change("A2", true);
    mem.on_pin_state_change("D0", true);
    mem.on_pin_state_change("D1", true);
    w_test_directions(&mem, PinDirection::Input);
    assert_eq!(mem.logic.read_byte(0b110), 0b11);
}

#[test]
fn w24512a_cs2_low_disables() {
    let mut mem = W24512A::new(W24512ALogic::new());
    w_set_state(&mut mem, false, true, false);
    assert!(mem.is_enabled());
    mem.on_pin_state_change("CS2", false);
    assert!(!mem.is_enabled());
    assert!(mem.pins.data.pins.iter().all(|p| !p.enabled));
}

#[test]
fn write_then_read_back_through_pins() {
    let mut mem = HM62256B::new(HM62256BLogic::new());
    mem.bus_cycle(false, 0x1234, 0xa5);
    assert_eq!(mem.logic.read_byte(0x1234), 0xa5);
    mem.bus_cycle(true, 0x0001, 0);
    assert_eq!(mem.driven_data(), Some(0x00));
    mem.bus_cycle(true, 0x9234, 0);
    assert_eq!(mem.driven_data(), Some(0xa5));
}

#[test]
fn disabled_chip_drives_nothing() {
    let mut mem = HM62256B::new(HM62256BLogic::new());
    mem.logic.write_byte(0, 0x42);
    mem.bus_cycle(true, 0, 0);
    assert_eq!(mem.driven_data(), Some(0x42));
    mem.on_pin_state_change("CS", true);
    assert_eq!(mem.driven_data(), None);
}

#[test]
fn test_machine_creation() {
    assert!(BenEaterMachine::new().is_ok());
}

#[test]
fn test_simple_program() {
    let prg: &[u8] = &[
        0x40, 0x4c, 0x00, 0x02, 0x03, 0xee, 0xa9, 0x02, 0xa2, 0x00, 0xa0, 0x00, 0x18, 0x00,
        0xa0, 0x60, 0x4c, 0x11, 0x02, 0x23, 0x12, 0xa0, 0x23, 0x4c, 0xa0, 0x02, 0x4c, 0x17,
        0x02, 0x23, 0x18, 0xa0, 0x23, 0x4c, 0x4c, 0x02, 0x02, 0x65, 0xf6, 0x30, 0x10, 0x60,
        0x60, 0xf3, 0xeb, 0x70, 0x50, 0x60, 0x60, 0xe8, 0xdb, 0xb0, 0x90, 0x60, 0x60, 0xd8,
        0xda, 0xd0, 0xf0, 0x60, 0x60, 0xd7, 0x08, 0x08, 0x00, 0xa9, 0x08, 0xa2, 0x3e, 0x4e,
        0x90, 0x02, 0x18, 0x04, 0x3f, 0x6d, 0x6a, 0x02, 0x3e, 0x6e, 0xca, 0x02, 0xf3, 0xd0,
        0x3f, 0x8d, 0xad, 0x02, 0x02, 0x3e, 0x40, 0xc9, 0x20, 0x08, 0x02, 0x38, 0x04, 0x20,
        0xa0, 0x02, 0xad, 0x00, 0x02, 0x03, 0x00, 0x28,
    ];
    let mut m = BenEaterMachine::with_program(0x200, &prg).unwrap();
    m.step();
}
