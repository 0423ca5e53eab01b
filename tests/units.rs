use emu6502::alu::execute_operation;
use emu6502::circuit::{contention, indexed_name, route, route_port, CircuitBuilder};
use emu6502::debugger::{CliDebugger, Debugger, DebugMessage, DebuggerState, MemCell, NullDebugger};
use emu6502::machine::{BenEaterMachine, SimplifiedC64Machine};
use emu6502::memory::{fragment, read_word, Addressable, HM62256BLogic, W24512ALogic};
use emu6502::w65c02::CpuFault;
use emu6502::opcodes::{operation, AddressMode, Executor, Mnemonic, OperationDef};
use emu6502::pin::{Pin, PinDirection, PinError, Port};
use emu6502::state::CpuState;
use emu6502::steppers::{get_stepper, CpuBus, StepperKind};

fn op(m: Mnemonic, mode: AddressMode) -> OperationDef {
    OperationDef::new(0, m, mode)
}

#[test]
fn power_up_registers() {
    let cpu = CpuState::new();
    assert_eq!(cpu.sp(), 0xfa);
    assert_eq!(cpu.p(), 0x20);
    assert_eq!(cpu.a(), 0);
    assert_eq!(cpu.pc(), 0);
}

#[test]
fn flag_setters_touch_one_bit() {
    let mut cpu = CpuState::new();
    cpu.set_carry(true);
    assert_eq!(cpu.p(), 0x21);
    cpu.set_negative(true);
    cpu.set_overflow(true);
    cpu.set_zero(true);
    cpu.set_interrupt_disable(true);
    cpu.set_decimal_mode(true);
    cpu.set_break_command(true);
    assert_eq!(cpu.p(), 0xff);
    assert!(cpu.carry() && cpu.negative() && cpu.zero() && cpu.overflow());
    assert!(cpu.interrupt_disable() && cpu.decimal_mode() && cpu.break_command());
    cpu.set_carry(false);
    assert_eq!(cpu.p(), 0xfe);
    cpu.set_p(0x00);
    assert_eq!(cpu.p(), 0x20);
}

#[test]
fn program_counter_halves() {
    let mut cpu = CpuState::new();
    cpu.set_pc(0x12ff);
    assert_eq!(cpu.pcl(), 0xff);
    assert_eq!(cpu.pch(), 0x12);
    cpu.inc_pc();
    assert_eq!(cpu.pc(), 0x1300);
    cpu.set_pcl(0x34);
    cpu.set_pch(0xab);
    assert_eq!(cpu.pc(), 0xab34);
    cpu.set_pc(0xffff);
    cpu.inc_pc();
    assert_eq!(cpu.pc(), 0);
    cpu.set_sp(0);
    cpu.dec_sp();
    assert_eq!(cpu.sp(), 0xff);
    cpu.inc_sp();
    assert_eq!(cpu.sp(), 0);
}

#[test]
fn flag_instructions() {
    let mut cpu = CpuState::new();
    for (m, check) in [
        (Mnemonic::SEC, 0x01u8),
        (Mnemonic::SEI, 0x04),
        (Mnemonic::SED, 0x08),
    ] {
        execute_operation(&mut cpu, &op(m, AddressMode::Implicit), 0);
        assert_eq!(cpu.p() & check, check);
    }
    cpu.set_overflow(true);
    for (m, check) in [
        (Mnemonic::CLC, 0x01u8),
        (Mnemonic::CLI, 0x04),
        (Mnemonic::CLD, 0x08),
        (Mnemonic::CLV, 0x40),
    ] {
        execute_operation(&mut cpu, &op(m, AddressMode::Implicit), 0);
        assert_eq!(cpu.p() & check, 0);
        assert_eq!(cpu.p() & 0x20, 0x20);
    }
}

#[test]
fn adc_overflow_boundary() {
    let mut cpu = CpuState::new();
    cpu.set_a(0x7f);
    let r = execute_operation(&mut cpu, &op(Mnemonic::ADC, AddressMode::Immediate), 0x01);
    assert_eq!(r, 0x80);
    assert_eq!(cpu.a(), 0x80);
    assert!(cpu.negative() && cpu.overflow() && !cpu.zero() && !cpu.carry());
}

#[test]
fn sbc_borrow_boundary() {
    let mut cpu = CpuState::new();
    cpu.set_a(0x00);
    cpu.set_carry(false);
    execute_operation(&mut cpu, &op(Mnemonic::SBC, AddressMode::Immediate), 0x01);
    assert_eq!(cpu.a(), 0xfe);
    assert!(!cpu.carry() && cpu.negative());
}

#[test]
fn compare_sets_carry_and_zero() {
    let mut cpu = CpuState::new();
    cpu.set_x(0x10);
    let d = execute_operation(&mut cpu, &op(Mnemonic::CPX, AddressMode::Immediate), 0x20);
    assert_eq!(d, 0xf0);
    assert!(!cpu.carry() && !cpu.zero() && cpu.negative());
    execute_operation(&mut cpu, &op(Mnemonic::CPX, AddressMode::Immediate), 0x10);
    assert!(cpu.carry() && cpu.zero());
}

#[test]
fn shifts_and_rotates() {
    let mut cpu = CpuState::new();
    assert_eq!(execute_operation(&mut cpu, &op(Mnemonic::ASL, AddressMode::Accumulator), 0x81), 0x02);
    assert!(cpu.carry());
    assert_eq!(execute_operation(&mut cpu, &op(Mnemonic::ROL, AddressMode::Accumulator), 0x40), 0x81);
    assert!(!cpu.carry() && cpu.negative());
    assert_eq!(execute_operation(&mut cpu, &op(Mnemonic::LSR, AddressMode::Accumulator), 0x01), 0x00);
    assert!(cpu.carry() && cpu.zero());
    assert_eq!(execute_operation(&mut cpu, &op(Mnemonic::ROR, AddressMode::Accumulator), 0x02), 0x81);
    assert!(!cpu.carry());
}

#[test]
fn bit_and_transfers() {
    let mut cpu = CpuState::new();
    cpu.set_a(0x01);
    execute_operation(&mut cpu, &op(Mnemonic::BIT, AddressMode::ZeroPage), 0xc0);
    assert!(cpu.negative() && cpu.overflow() && cpu.zero());
    assert_eq!(cpu.a(), 0x01);
    cpu.set_sp(0x80);
    execute_operation(&mut cpu, &op(Mnemonic::TSX, AddressMode::Implicit), 0);
    assert_eq!(cpu.x(), 0x80);
    assert!(cpu.negative() && !cpu.zero());
    cpu.set_x(0x00);
    let p = cpu.p();
    execute_operation(&mut cpu, &op(Mnemonic::TXS, AddressMode::Implicit), 0);
    assert_eq!(cpu.sp(), 0x00);
    assert_eq!(cpu.p(), p);
}

#[test]
fn plp_keeps_break_bit() {
    let mut cpu = CpuState::new();
    cpu.set_break_command(false);
    execute_operation(&mut cpu, &op(Mnemonic::PLP, AddressMode::Implicit), 0xff);
    assert_eq!(cpu.p(), 0xef);
    execute_operation(&mut cpu, &op(Mnemonic::PLP, AddressMode::Implicit), 0x00);
    assert_eq!(cpu.p(), 0x20);
}

#[test]
fn opcode_table() {
    let lda = operation(0xa9).unwrap();
    assert_eq!(lda.mnemonic, Mnemonic::LDA);
    assert_eq!(lda.address_mode, AddressMode::Immediate);
    assert_eq!(lda.executor, Executor::Load);
    assert_eq!(lda.len, 2);
    assert_eq!(lda.cycles, 2);
    let sta = operation(0x9d).unwrap();
    assert_eq!((sta.mnemonic, sta.cycles, sta.len), (Mnemonic::STA, 5, 3));
    let inc = operation(0xfe).unwrap();
    assert_eq!((inc.mnemonic, inc.cycles), (Mnemonic::INC, 7));
    assert_eq!(operation(0x6c).unwrap().cycles, 5);
    assert!(operation(0x02).is_none());
    assert_eq!((0..=255u8).filter(|o| operation(*o).is_some()).count(), 151);
}

#[test]
fn stepper_selection() {
    assert_eq!(get_stepper(&operation(0xa9).unwrap()).unwrap().kind, StepperKind::NoMem);
    assert_eq!(get_stepper(&operation(0xad).unwrap()).unwrap().kind, StepperKind::Read);
    assert_eq!(get_stepper(&operation(0x8d).unwrap()).unwrap().kind, StepperKind::Write);
    assert_eq!(get_stepper(&operation(0xee).unwrap()).unwrap().kind, StepperKind::Rmw);
    assert_eq!(get_stepper(&operation(0x48).unwrap()).unwrap().kind, StepperKind::Push);
    assert_eq!(get_stepper(&operation(0x60).unwrap()).unwrap().kind, StepperKind::RtsRti);
    assert!(get_stepper(&operation(0x00).unwrap()).is_none());
}

#[test]
fn stepper_counts_cycles() {
    // LDA $1234: the stepper runs three bus cycles after the opcode fetch
    let mut s = get_stepper(&operation(0xad).unwrap()).unwrap();
    let mut cpu = CpuState::new();
    let mut bus = CpuBus::new();
    let mut halves = 0;
    loop {
        halves += 1;
        if let Some(r) = s.step(&mut cpu, &mut bus) {
            assert!(r.completed);
            break;
        }
    }
    assert_eq!(halves, 6);
    assert_eq!(s.cycle, 4);
}

#[test]
fn input_pin_ignores_write() {
    let mut p = Pin::input("X");
    assert!(!p.write(true));
    assert!(!p.level);
    let mut o = Pin::output("Y");
    assert!(o.write(true));
    assert!(o.level);
    assert!(o.toggle());
    assert!(!o.level);
    assert_eq!(o.set_direction(PinDirection::Input), Err(PinError::DirectionMismatch));
}

#[test]
fn disabled_tri_state_does_not_propagate() {
    let mut w = Pin::grouped("D0", 1, "D", 0, PinDirection::Output, true);
    w.write(true);
    w.set_enable(false).unwrap();
    let mut r = Pin::input("D0");
    assert!(!route(&w, &mut r));
    assert!(!r.level);
    w.set_enable(true).unwrap();
    assert!(route(&w, &mut r));
    assert!(r.level);

    let mut writers = Port::from_pins(
        (0..8).map(|i| Pin::grouped("D", 1, "D", i, PinDirection::Output, true)).collect(),
    );
    writers.write(0xa5);
    writers.set_enable(false);
    let mut readers = Port::from_pins((0..8).map(|_| Pin::input("D")).collect());
    assert!(!route_port(&writers, &mut readers));
    assert_eq!(readers.read(), 0);
    writers.set_enable(true);
    assert!(route_port(&writers, &mut readers));
    assert_eq!(readers.read(), 0xa5);
}

#[test]
fn port_read_write() {
    let mut port = Port::from_pins(
        (0..8).map(|i| Pin::grouped("D", 1, "D", i, PinDirection::Output, true)).collect(),
    );
    port.write(0x3c);
    assert_eq!(port.read(), 0x3c);
    port.set_direction(PinDirection::Input).unwrap();
    assert!(!port.write(0xff));
    assert_eq!(port.read(), 0x3c);
    port.set_levels(0x81);
    assert_eq!(port.read(), 0x81);
}

#[test]
fn circuit_links() {
    assert_eq!(indexed_name("A", 0), "A0");
    assert_eq!(indexed_name("A", 14), "A14");
    assert_eq!(indexed_name("Q", 255), "Q255");
    let mut b = CircuitBuilder::new();
    b.add_component("U1");
    b.add_component("U6");
    b.add_component("U1");
    assert_eq!(b.components.len(), 2);
    b.link("U1", "RW", "U6", "WE");
    b.link("U1", "RW", "U6", "WE");
    assert_eq!(b.links.len(), 1);
    b.link_range("U1", "A", "U6", "A", 0..3);
    assert_eq!(b.links.len(), 4);
    b.link_range("U1", "D", "U6", "D", 5..5);
    assert_eq!(b.links.len(), 4);
    let mut c = b.build();
    let r = c.readers("U1", "A2");
    assert_eq!(r, vec![("U6".to_string(), "A2".to_string())]);
    assert!(c.readers("U6", "A2").is_empty());
    let m = c.tick();
    assert!(!m.val);
    assert!(c.tick().val);
}

#[test]
fn debugger_sinks() {
    let mut d = CliDebugger::new(false, false);
    d.init_mem(0xfffe, &[1, 2, 3]);
    assert_eq!(d.cell(0xfffe), 1);
    assert_eq!(d.cell(0xffff), 2);
    assert_eq!(d.cell(0x0000), 3);
    d.debug(DebugMessage::MemCellUpdate(MemCell { addr: 0x10, val: 9 }));
    assert_eq!(d.cell(0x10), 9);
    d.disable();
    assert!(!d.enabled());
    d.debug(DebugMessage::MemCellUpdate(MemCell { addr: 0x10, val: 7 }));
    assert_eq!(d.cell(0x10), 9);
    let n = NullDebugger::as_rc();
    assert!(!n.enabled());
    let mut s = DebuggerState::new();
    assert!(s.enabled());
    s.set_enabled(false);
    assert!(!s.enabled());
}

#[test]
fn words_and_fragments() {
    let mut m = W24512ALogic::new();
    m.write_byte(0xffff, 0x34);
    m.write_byte(0x0000, 0x12);
    assert_eq!(read_word(&m, 0xffff), 0x1234);
    m.load(0x10, &[1, 2, 3, 4]);
    assert_eq!(fragment(&m, 0x11, 0x14), vec![2, 3, 4]);
    assert!(fragment(&m, 0x14, 0x11).is_empty());
    assert_eq!(m.address_width(), 16);
    let mut h = HM62256BLogic::new();
    h.write_byte(0x8001, 0x77);
    assert_eq!(h.read_byte(0x0001), 0x77);
    assert_eq!(h.address_width(), 15);
}

#[test]
fn c64_machine_runs_from_reset_vector() {
    // $FCE2: LDA #$07 ; STA $0400 ; then BRK
    let prog = [0xa9, 0x07, 0x8d, 0x00, 0x04];
    let mut m = SimplifiedC64Machine::with_program_and_debugger(0xfce2, &prog, true).unwrap();
    m.start();
    assert_eq!(m.cpu.fault, Some(CpuFault::NoStepper { opcode: 0x00 }));
    assert_eq!(m.cpu.state.reg.a, 0x07);
    assert_eq!(m.ram.logic.data[0x0400], 0x07);
    assert!(SimplifiedC64Machine::with_program_and_debugger(0xfff0, &[0; 0x20], false).is_err());
    assert!(BenEaterMachine::with_program(0x7ff0, &[0; 0x20]).is_err());
}

#[test]
fn strict_write_and_contention() {
    let mut i = Pin::input("X");
    assert_eq!(i.write_strict(true), Err(PinError::NotDrivable));
    assert!(!i.level);
    let mut a = Pin::output("A");
    assert_eq!(a.write_strict(true), Ok(()));
    assert!(a.level);
    let mut b = Pin::grouped("D0", 1, "D", 0, PinDirection::Output, true);
    assert!(contention(&a, &b));
    b.set_enable(false).unwrap();
    assert!(!contention(&a, &b));
    assert!(!contention(&a, &i));
}

#[test]
fn write_cycles_are_traced() {
    // LDA #$5a ; STA $0300
    let mut m = BenEaterMachine::with_program(0x200, &[0xa9, 0x5a, 0x8d, 0x00, 0x03]).unwrap();
    m.cpu.debugger.enabled = true;
    for _ in 0..40 {
        m.step();
    }
    let updates: Vec<MemCell> = m
        .cpu
        .trace
        .iter()
        .filter_map(|d| match d {
            DebugMessage::MemCellUpdate(c) => Some(*c),
            _ => None,
        })
        .collect();
    assert_eq!(updates, vec![MemCell { addr: 0x0300, val: 0x5a }]);
    let mut mirror = CliDebugger::new(false, false);
    for d in m.cpu.trace.iter() {
        mirror.debug(*d);
    }
    assert_eq!(mirror.cell(0x0300), 0x5a);
}
