use emu6502::debugger::{DebugMessage, Operation};
use emu6502::machine::BenEaterMachine;
use emu6502::memory::Addressable;
use emu6502::w65c02::CpuFault;

fn machine(prog: &[u8]) -> BenEaterMachine {
    let mut m = BenEaterMachine::with_program(0x200, prog).unwrap();
    m.cpu.debugger.enabled = true;
    m
}

fn ops(m: &BenEaterMachine) -> Vec<Operation> {
    m.cpu
        .trace
        .iter()
        .filter_map(|d| match d {
            DebugMessage::CpuOperation(o) => Some(*o),
            _ => None,
        })
        .collect()
}

fn run_ops(m: &mut BenEaterMachine, n: usize) -> Vec<Operation> {
    for _ in 0..200_000 {
        if ops(m).len() >= n || m.cpu.fault.is_some() {
            break;
        }
        m.step();
    }
    let o = ops(m);
    assert!(o.len() >= n, "only {} instructions completed", o.len());
    o
}

const N: u8 = 0x80;
const V: u8 = 0x40;
const Z: u8 = 0x02;
const C: u8 = 0x01;

#[test]
fn lda_immediate_two_cycles() {
    let mut m = machine(&[0xea, 0xa9, 0x42]);
    let o = run_ops(&mut m, 2);
    let r = o[1].reg;
    assert_eq!(r.a, 0x42);
    assert_eq!(r.p & Z, 0);
    assert_eq!(r.p & N, 0);
    assert_eq!(r.pc, 0x203);
    assert_eq!(o[1].cycle - o[0].cycle, 2);
}

#[test]
fn lda_absolute_four_cycles() {
    let mut m = machine(&[0xea, 0xad, 0x34, 0x12]);
    m.ram.logic.write_byte(0x1234, 0x80);
    let o = run_ops(&mut m, 2);
    let r = o[1].reg;
    assert_eq!(r.a, 0x80);
    assert_eq!(r.p & N, N);
    assert_eq!(r.p & Z, 0);
    assert_eq!(o[1].cycle - o[0].cycle, 4);
}

#[test]
fn lda_zero_page_x() {
    let mut m = machine(&[0xa2, 0x03, 0xb5, 0x00]);
    m.ram.logic.write_byte(0x0003, 0x55);
    let o = run_ops(&mut m, 2);
    assert_eq!(o[1].reg.a, 0x55);
    assert_eq!(o[1].cycle - o[0].cycle, 4);
}

#[test]
fn adc_with_carry_out() {
    let mut m = machine(&[0x18, 0xa9, 0xf0, 0x69, 0x20]);
    let o = run_ops(&mut m, 3);
    let r = o[2].reg;
    assert_eq!(r.a, 0x10);
    assert_eq!(r.p & C, C);
    assert_eq!(r.p & V, 0);
    assert_eq!(r.p & N, 0);
    assert_eq!(r.p & Z, 0);
}

#[test]
fn sbc_with_overflow() {
    let mut m = machine(&[0x38, 0xa9, 0x50, 0xe9, 0xb0]);
    let o = run_ops(&mut m, 3);
    let r = o[2].reg;
    assert_eq!(r.a, 0xa0);
    assert_eq!(r.p & C, 0);
    assert_eq!(r.p & V, V);
    assert_eq!(r.p & N, N);
}

#[test]
fn jmp_then_brk_stops() {
    let mut m = machine(&[0x4c, 0x05, 0x02, 0xea, 0xea, 0x00]);
    let o = run_ops(&mut m, 1);
    assert_eq!(o[0].reg.pc, 0x0205);
    for _ in 0..100 {
        m.step();
    }
    assert_eq!(ops(&m).len(), 1);
    assert_eq!(m.cpu.fault, Some(CpuFault::NoStepper { opcode: 0x00 }));
    assert_eq!(m.cpu.state.reg.pc, 0x0206);
}

#[test]
fn nops_take_two_cycles_each() {
    let mut m = machine(&[0xea, 0xea, 0xea]);
    let o = run_ops(&mut m, 3);
    assert_eq!(o[1].cycle - o[0].cycle, 2);
    assert_eq!(o[2].cycle - o[1].cycle, 2);
    assert_eq!(o[2].reg.pc, 0x203);
}

#[test]
fn store_and_load_round_trip() {
    for v in [0x00u8, 0x7f, 0x80, 0x5a] {
        let mut m = machine(&[0xa9, v, 0x8d, 0x00, 0x30, 0xa9, 0x00, 0xad, 0x00, 0x30]);
        let o = run_ops(&mut m, 4);
        let r = o[3].reg;
        assert_eq!(r.a, v);
        assert_eq!(r.p & Z != 0, v == 0);
        assert_eq!(r.p & N != 0, v >= 0x80);
        assert_eq!(m.ram.logic.read_byte(0x3000), v);
    }
}

#[test]
fn pha_pla_round_trip() {
    let mut m = machine(&[0xa9, 0x9c, 0x48, 0xa9, 0x00, 0x68]);
    let o = run_ops(&mut m, 4);
    assert_eq!(o[3].reg.a, 0x9c);
    assert_eq!(o[3].reg.p & N, N);
    assert_eq!(o[3].reg.p & Z, 0);
    assert_eq!(o[3].reg.sp, o[0].reg.sp);
    assert_eq!(o[1].cycle - o[0].cycle, 3);
    assert_eq!(o[3].cycle - o[2].cycle, 4);
}

#[test]
fn php_plp_round_trip() {
    let mut m = machine(&[0x38, 0xf8, 0x08, 0x18, 0xd8, 0x28]);
    let o = run_ops(&mut m, 6);
    assert_eq!(o[5].reg.p, o[1].reg.p);
    assert_eq!(o[5].reg.p & 0x20, 0x20);
    assert_eq!(o[5].cycle - o[4].cycle, 4);
}

#[test]
fn jsr_rts_round_trip() {
    // $0200: JSR $0210 ; $0203: NOP ... $0210: RTS
    let mut prog = vec![0x20, 0x10, 0x02, 0xea];
    prog.resize(0x10, 0xea);
    prog.push(0x60);
    let mut m = machine(&prog);
    let o = run_ops(&mut m, 3);
    assert_eq!(o[0].reg.pc, 0x0210);
    assert_eq!(o[1].reg.pc, 0x0203);
    assert_eq!(o[1].reg.sp, 0xfa);
    assert_eq!(o[0].cycle + 6, o[1].cycle);
    assert_eq!(o[2].reg.pc, 0x0204);
}

#[test]
fn adc_signed_overflow() {
    let mut m = machine(&[0x18, 0xa9, 0x7f, 0x69, 0x01]);
    let o = run_ops(&mut m, 3);
    let r = o[2].reg;
    assert_eq!(r.a, 0x80);
    assert_eq!(r.p & (N | V | Z | C), N | V);
}

#[test]
fn sbc_borrow() {
    let mut m = machine(&[0x18, 0xa9, 0x00, 0xe9, 0x01]);
    let o = run_ops(&mut m, 3);
    let r = o[2].reg;
    assert_eq!(r.a, 0xfe);
    assert_eq!(r.p & C, 0);
    assert_eq!(r.p & N, N);
}

#[test]
fn jmp_indirect_page_wrap() {
    let mut m = machine(&[0x6c, 0xff, 0x10]);
    m.ram.logic.write_byte(0x10ff, 0x34);
    m.ram.logic.write_byte(0x1000, 0x12);
    m.ram.logic.write_byte(0x1100, 0x56);
    let o = run_ops(&mut m, 1);
    assert_eq!(o[0].reg.pc, 0x1234);
}

#[test]
fn branch_page_cross_costs_a_cycle() {
    // $0200: SEC ; BCS +2 (same page) ; two NOPs skipped ; at $0205 NOP
    let mut m = machine(&[0x38, 0xb0, 0x02, 0xea, 0xea, 0xea]);
    let o = run_ops(&mut m, 3);
    assert_eq!(o[1].reg.pc, 0x0205);
    let same_page = o[1].cycle - o[0].cycle;
    assert_eq!(same_page, 3);
    // $02F0: SEC ; BCS +$20 lands on $0313, on the next page
    let mut prog = vec![0xea; 0xf0];
    prog.extend_from_slice(&[0x38, 0xb0, 0x20]);
    let mut m = machine(&prog);
    let o = run_ops(&mut m, 0xf2);
    assert_eq!(o[0xf1].reg.pc, 0x0313);
    assert_eq!(o[0xf1].cycle - o[0xf0].cycle, same_page + 1);
    // not taken: two cycles
    let mut m = machine(&[0x18, 0xb0, 0x02]);
    let o = run_ops(&mut m, 2);
    assert_eq!(o[1].cycle - o[0].cycle, 2);
    assert_eq!(o[1].reg.pc, 0x0203);
}

#[test]
fn inc_zero_page_wraps() {
    let mut m = machine(&[0xe6, 0xff]);
    m.ram.logic.write_byte(0x00ff, 0xff);
    let o = run_ops(&mut m, 1);
    assert_eq!(m.ram.logic.read_byte(0x00ff), 0);
    assert_eq!(o[0].reg.p & Z, Z);
}

#[test]
fn indexed_read_page_cross() {
    // LDX #$01 ; LDA $12FF,X reads $1300 in five cycles
    let mut m = machine(&[0xa2, 0x01, 0xbd, 0xff, 0x12, 0xbd, 0x00, 0x12]);
    m.ram.logic.write_byte(0x1300, 0x77);
    m.ram.logic.write_byte(0x1201, 0x66);
    let o = run_ops(&mut m, 3);
    assert_eq!(o[1].reg.a, 0x77);
    assert_eq!(o[1].cycle - o[0].cycle, 5);
    assert_eq!(o[2].reg.a, 0x66);
    assert_eq!(o[2].cycle - o[1].cycle, 4);
}

#[test]
fn indirect_indexed_modes() {
    // LDX #$02 ; LDA ($10,X) ; LDY #$03 ; LDA ($20),Y
    let mut m = machine(&[0xa2, 0x02, 0xa1, 0x10, 0xa0, 0x03, 0xb1, 0x20]);
    m.ram.logic.write_byte(0x0012, 0x00);
    m.ram.logic.write_byte(0x0013, 0x40);
    m.ram.logic.write_byte(0x4000, 0x11);
    m.ram.logic.write_byte(0x0020, 0x00);
    m.ram.logic.write_byte(0x0021, 0x41);
    m.ram.logic.write_byte(0x4103, 0x22);
    let o = run_ops(&mut m, 4);
    assert_eq!(o[1].reg.a, 0x11);
    assert_eq!(o[1].cycle - o[0].cycle, 6);
    assert_eq!(o[3].reg.a, 0x22);
    assert_eq!(o[3].cycle - o[2].cycle, 5);
}

#[test]
fn rmw_absolute_six_cycles() {
    // ASL $3000 with $3000 = $81
    let mut m = machine(&[0xea, 0x0e, 0x00, 0x30]);
    m.ram.logic.write_byte(0x3000, 0x81);
    let o = run_ops(&mut m, 2);
    assert_eq!(m.ram.logic.read_byte(0x3000), 0x02);
    assert_eq!(o[1].reg.p & C, C);
    assert_eq!(o[1].cycle - o[0].cycle, 6);
}

#[test]
fn unknown_opcode_faults() {
    let mut m = machine(&[0x02]);
    for _ in 0..40 {
        m.step();
    }
    assert_eq!(m.cpu.fault, Some(CpuFault::UnknownOpcode { opcode: 0x02, pc: 0x0201 }));
}

#[test]
fn start_runs_from_reset() {
    // LDX #$05 ; DEX ; BNE -3 ; BRK
    let mut m = BenEaterMachine::with_program(0x200, &[0xa2, 0x05, 0xca, 0xd0, 0xfd, 0x00]).unwrap();
    m.start(1000);
    assert_eq!(m.cpu.state.reg.x, 0);
    assert_eq!(m.cpu.fault, Some(CpuFault::NoStepper { opcode: 0x00 }));
    assert_eq!(m.cpu.state.reg.pc, 0x0206);
}
