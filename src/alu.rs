use vstd::prelude::*;
use crate::opcodes::{executor_of, Executor, Mnemonic, OperationDef};
use crate::state::{
    bit, lemma_masks, lemma_with_bit, lemma_with_bit_all, with_bit, CpuState, Registers, BREAK, CARRY, DECIMAL,
    INTERRUPT, NEGATIVE, OVERFLOW, UNUSED, ZERO,
};

verus! {

/// Status byte `p` with N and Z set from the value `v`.
pub open spec fn nz(p: u8, v: u8) -> u8 {
    with_bit(with_bit(p, NEGATIVE, v >= 128), ZERO, v == 0)
}

/// Status byte `p` with N and Z set from `v`, and C set to `c`.
pub open spec fn nzc(p: u8, v: u8, c: bool) -> u8 {
    with_bit(nz(p, v), CARRY, c)
}

/// Signed overflow of `a + b` giving `res`: both inputs differ in sign from the result.
pub open spec fn overflow_of(a: u8, b: u8, res: u8) -> bool {
    ((a ^ res) & (b ^ res) & 0x80u8) != 0
}

/// Status byte after pulling `val` from the stack: bit 4 keeps its old value, bit 5 is 1.
pub open spec fn pulled_p(old_p: u8, val: u8) -> u8 {
    with_bit(with_bit(val, BREAK, bit(old_p, BREAK)), UNUSED, true)
}

/// Whether a branch instruction is taken on status byte `p`.
pub open spec fn branch_taken(m: Mnemonic, p: u8) -> bool {
    match m {
        Mnemonic::BCC => !bit(p, CARRY),
        Mnemonic::BCS => bit(p, CARRY),
        Mnemonic::BNE => !bit(p, ZERO),
        Mnemonic::BEQ => bit(p, ZERO),
        Mnemonic::BPL => !bit(p, NEGATIVE),
        Mnemonic::BMI => bit(p, NEGATIVE),
        Mnemonic::BVC => !bit(p, OVERFLOW),
        Mnemonic::BVS => bit(p, OVERFLOW),
        _ => false,
    }
}

/// Semantics of the executor: the registers after evaluating mnemonic `m` on value `val`,
/// and the value the executor hands back to the stepper (the byte to store, the value
/// written back by a read-modify-write, 1 for a branch that is taken).
pub open spec fn execute_spec(r: Registers, m: Mnemonic, val: u8) -> (Registers, u8) {
    let c: int = if bit(r.p, CARRY) { 1 } else { 0 };
    match m {
        Mnemonic::ADC | Mnemonic::SBC => {
            let v = if m == Mnemonic::SBC { !val } else { val };
            let sum = r.a + v + c;
            let res = (sum % 256) as u8;
            (
                Registers {
                    a: res,
                    p: with_bit(nzc(r.p, res, sum > 255), OVERFLOW, overflow_of(r.a, v, res)),
                    ..r
                },
                res,
            )
        },
        Mnemonic::AND => (Registers { a: r.a & val, p: nz(r.p, r.a & val), ..r }, r.a & val),
        Mnemonic::ORA => (Registers { a: r.a | val, p: nz(r.p, r.a | val), ..r }, r.a | val),
        Mnemonic::EOR => (Registers { a: r.a ^ val, p: nz(r.p, r.a ^ val), ..r }, r.a ^ val),
        Mnemonic::BIT => (
            Registers {
                p: with_bit(
                    with_bit(with_bit(r.p, NEGATIVE, val >= 128), ZERO, r.a & val == 0),
                    OVERFLOW,
                    val % 128 >= 64,
                ),
                ..r
            },
            val,
        ),
        Mnemonic::ASL => {
            let res = (val * 2 % 256) as u8;
            (Registers { p: nzc(r.p, res, val >= 128), ..r }, res)
        },
        Mnemonic::LSR => {
            let res = val / 2;
            (Registers { p: nzc(r.p, res, val % 2 == 1), ..r }, res)
        },
        Mnemonic::ROL => {
            let res = ((val * 2 + c) % 256) as u8;
            (Registers { p: nzc(r.p, res, val >= 128), ..r }, res)
        },
        Mnemonic::ROR => {
            let res = (val / 2 + c * 128) as u8;
            (Registers { p: nzc(r.p, res, val % 2 == 1), ..r }, res)
        },
        Mnemonic::CMP | Mnemonic::CPX | Mnemonic::CPY => {
            let reg = if m == Mnemonic::CMP {
                r.a
            } else if m == Mnemonic::CPX {
                r.x
            } else {
                r.y
            };
            let diff = reg.wrapping_sub(val);
            (
                Registers {
                    p: with_bit(
                        with_bit(with_bit(r.p, NEGATIVE, diff >= 128), ZERO, reg == val),
                        CARRY,
                        reg >= val,
                    ),
                    ..r
                },
                diff,
            )
        },
        Mnemonic::INC => (Registers { p: nz(r.p, val.wrapping_add(1)), ..r }, val.wrapping_add(1)),
        Mnemonic::DEC => (Registers { p: nz(r.p, val.wrapping_sub(1)), ..r }, val.wrapping_sub(1)),
        Mnemonic::INX => (
            Registers { x: r.x.wrapping_add(1), p: nz(r.p, r.x.wrapping_add(1)), ..r },
            r.x.wrapping_add(1),
        ),
        Mnemonic::DEX => (
            Registers { x: r.x.wrapping_sub(1), p: nz(r.p, r.x.wrapping_sub(1)), ..r },
            r.x.wrapping_sub(1),
        ),
        Mnemonic::INY => (
            Registers { y: r.y.wrapping_add(1), p: nz(r.p, r.y.wrapping_add(1)), ..r },
            r.y.wrapping_add(1),
        ),
        Mnemonic::DEY => (
            Registers { y: r.y.wrapping_sub(1), p: nz(r.p, r.y.wrapping_sub(1)), ..r },
            r.y.wrapping_sub(1),
        ),
        Mnemonic::LDA => (Registers { a: val, p: nz(r.p, val), ..r }, val),
        Mnemonic::LDX => (Registers { x: val, p: nz(r.p, val), ..r }, val),
        Mnemonic::LDY => (Registers { y: val, p: nz(r.p, val), ..r }, val),
        Mnemonic::PLA => (Registers { a: val, p: nz(r.p, val), ..r }, val),
        Mnemonic::PLP => (Registers { p: pulled_p(r.p, val), ..r }, val),
        Mnemonic::PHA => (r, r.a),
        Mnemonic::PHP => (r, r.p),
        Mnemonic::STA => (r, r.a),
        Mnemonic::STX => (r, r.x),
        Mnemonic::STY => (r, r.y),
        Mnemonic::TAX => (Registers { x: r.a, p: nz(r.p, r.a), ..r }, r.a),
        Mnemonic::TAY => (Registers { y: r.a, p: nz(r.p, r.a), ..r }, r.a),
        Mnemonic::TXA => (Registers { a: r.x, p: nz(r.p, r.x), ..r }, r.x),
        Mnemonic::TYA => (Registers { a: r.y, p: nz(r.p, r.y), ..r }, r.y),
        Mnemonic::TSX => (Registers { x: r.sp, p: nz(r.p, r.sp), ..r }, r.sp),
        Mnemonic::TXS => (Registers { sp: r.x, ..r }, r.x),
        Mnemonic::CLC => (Registers { p: with_bit(r.p, CARRY, false), ..r }, 0),
        Mnemonic::SEC => (Registers { p: with_bit(r.p, CARRY, true), ..r }, 0),
        Mnemonic::CLI => (Registers { p: with_bit(r.p, INTERRUPT, false), ..r }, 0),
        Mnemonic::SEI => (Registers { p: with_bit(r.p, INTERRUPT, true), ..r }, 0),
        Mnemonic::CLD => (Registers { p: with_bit(r.p, DECIMAL, false), ..r }, 0),
        Mnemonic::SED => (Registers { p: with_bit(r.p, DECIMAL, true), ..r }, 0),
        Mnemonic::CLV => (Registers { p: with_bit(r.p, OVERFLOW, false), ..r }, 0),
        Mnemonic::BCC | Mnemonic::BCS | Mnemonic::BNE | Mnemonic::BEQ | Mnemonic::BPL
        | Mnemonic::BMI | Mnemonic::BVC | Mnemonic::BVS => (
            r,
            if branch_taken(m, r.p) {
                1
            } else {
                0
            },
        ),
        _ => (r, 0),
    }
}

/// An instruction whose semantics the executor evaluates.
pub open spec fn has_executor(m: Mnemonic) -> bool {
    executor_of(m) != Executor::Control
}

fn set_nz_flags(cpu: &mut CpuState, val: u8)
    ensures
        final(cpu).reg == (Registers { p: nz(old(cpu).reg.p, val), ..old(cpu).reg }),
{
    cpu.set_negative(val >= 128);
    cpu.set_zero(val == 0);
}

fn op_arithmetic(cpu: &mut CpuState, m: Mnemonic, val: u8) -> (r: u8)
    requires
        m == Mnemonic::ADC || m == Mnemonic::SBC,
    ensures
        (final(cpu).reg, r) == execute_spec(old(cpu).reg, m, val),
{
    let a = cpu.a();
    let v = if m == Mnemonic::SBC { !val } else { val };
    let c: u16 = if cpu.carry() { 1 } else { 0 };
    let sum: u16 = a as u16 + v as u16 + c;
    let res = (sum % 256) as u8;
    cpu.set_a(res);
    set_nz_flags(cpu, res);
    cpu.set_carry(sum > 255);
    cpu.set_overflow(((a ^ res) & (v ^ res) & 0x80u8) != 0);
    res
}

fn op_bit(cpu: &mut CpuState, val: u8) -> (r: u8)
    ensures
        (final(cpu).reg, r) == execute_spec(old(cpu).reg, Mnemonic::BIT, val),
{
    let a = cpu.a();
    cpu.set_negative(val >= 128);
    cpu.set_zero(a & val == 0);
    cpu.set_overflow(val % 128 >= 64);
    val
}

fn op_bitwise(cpu: &mut CpuState, m: Mnemonic, val: u8) -> (r: u8)
    requires
        m == Mnemonic::AND || m == Mnemonic::ORA || m == Mnemonic::EOR,
    ensures
        (final(cpu).reg, r) == execute_spec(old(cpu).reg, m, val),
{
    let a = cpu.a();
    let res = match m {
        Mnemonic::AND => a & val,
        Mnemonic::ORA => a | val,
        _ => a ^ val,
    };
    cpu.set_a(res);
    set_nz_flags(cpu, res);
    res
}

fn op_branch(cpu: &CpuState, m: Mnemonic) -> (r: u8)
    requires
        executor_of(m) == Executor::Branch,
    ensures
        r == execute_spec(cpu.reg, m, 0).1,
        r == 1 <==> branch_taken(m, cpu.reg.p),
{
    let taken = match m {
        Mnemonic::BCC => !cpu.carry(),
        Mnemonic::BCS => cpu.carry(),
        Mnemonic::BNE => !cpu.zero(),
        Mnemonic::BEQ => cpu.zero(),
        Mnemonic::BPL => !cpu.negative(),
        Mnemonic::BMI => cpu.negative(),
        Mnemonic::BVC => !cpu.overflow(),
        _ => cpu.overflow(),
    };
    if taken {
        1
    } else {
        0
    }
}

fn op_compare(cpu: &mut CpuState, m: Mnemonic, val: u8) -> (r: u8)
    requires
        executor_of(m) == Executor::Compare,
    ensures
        (final(cpu).reg, r) == execute_spec(old(cpu).reg, m, val),
{
    let reg = match m {
        Mnemonic::CMP => cpu.a(),
        Mnemonic::CPX => cpu.x(),
        _ => cpu.y(),
    };
    let diff = reg.wrapping_sub(val);
    cpu.set_negative(diff >= 128);
    cpu.set_zero(reg == val);
    cpu.set_carry(reg >= val);
    diff
}

fn op_incdec_mem(cpu: &mut CpuState, m: Mnemonic, val: u8) -> (r: u8)
    requires
        executor_of(m) == Executor::IncDecMem,
    ensures
        (final(cpu).reg, r) == execute_spec(old(cpu).reg, m, val),
{
    let res = if m == Mnemonic::DEC { val.wrapping_sub(1) } else { val.wrapping_add(1) };
    set_nz_flags(cpu, res);
    res
}

fn op_incdec_reg(cpu: &mut CpuState, m: Mnemonic) -> (r: u8)
    requires
        executor_of(m) == Executor::IncDecReg,
    ensures
        (final(cpu).reg, r) == execute_spec(old(cpu).reg, m, 0),
{
    let res = match m {
        Mnemonic::DEX => {
            let v = cpu.x().wrapping_sub(1);
            cpu.set_x(v);
            v
        },
        Mnemonic::INX => {
            let v = cpu.x().wrapping_add(1);
            cpu.set_x(v);
            v
        },
        Mnemonic::DEY => {
            let v = cpu.y().wrapping_sub(1);
            cpu.set_y(v);
            v
        },
        _ => {
            let v = cpu.y().wrapping_add(1);
            cpu.set_y(v);
            v
        },
    };
    set_nz_flags(cpu, res);
    res
}

fn op_flag(cpu: &mut CpuState, m: Mnemonic) -> (r: u8)
    requires
        executor_of(m) == Executor::Flag,
    ensures
        (final(cpu).reg, r) == execute_spec(old(cpu).reg, m, 0),
{
    match m {
        Mnemonic::CLC => cpu.set_carry(false),
        Mnemonic::SEC => cpu.set_carry(true),
        Mnemonic::CLI => cpu.set_interrupt_disable(false),
        Mnemonic::SEI => cpu.set_interrupt_disable(true),
        Mnemonic::CLD => cpu.set_decimal_mode(false),
        Mnemonic::SED => cpu.set_decimal_mode(true),
        _ => cpu.set_overflow(false),
    }
    0
}

fn op_load(cpu: &mut CpuState, m: Mnemonic, val: u8) -> (r: u8)
    requires
        executor_of(m) == Executor::Load,
    ensures
        (final(cpu).reg, r) == execute_spec(old(cpu).reg, m, val),
{
    match m {
        Mnemonic::LDA => cpu.set_a(val),
        Mnemonic::LDX => cpu.set_x(val),
        _ => cpu.set_y(val),
    }
    set_nz_flags(cpu, val);
    val
}

fn op_pla(cpu: &mut CpuState, val: u8) -> (r: u8)
    ensures
        (final(cpu).reg, r) == execute_spec(old(cpu).reg, Mnemonic::PLA, val),
{
    cpu.set_a(val);
    set_nz_flags(cpu, val);
    val
}

fn op_plp(cpu: &mut CpuState, val: u8) -> (r: u8)
    ensures
        (final(cpu).reg, r) == execute_spec(old(cpu).reg, Mnemonic::PLP, val),
{
    restore_status(cpu, val);
    val
}

/// Loads P from a byte pulled off the stack: bit 4 is not taken from the byte, bit 5 is 1.
pub fn restore_status(cpu: &mut CpuState, val: u8)
    ensures
        final(cpu).reg == (Registers { p: pulled_p(old(cpu).reg.p, val), ..old(cpu).reg }),
        final(cpu).wf(),
{
    let b = cpu.break_command();
    let mut v = val;
    proof { lemma_masks(); }
    if b {
        v = v | 0x10;
    } else {
        v = v & !0x10u8;
    }
    cpu.set_p(v);
}

fn op_push(cpu: &CpuState, m: Mnemonic) -> (r: u8)
    requires
        executor_of(m) == Executor::Push,
    ensures
        r == execute_spec(cpu.reg, m, 0).1,
{
    if m == Mnemonic::PHA {
        cpu.a()
    } else {
        cpu.p()
    }
}

fn op_rotate(cpu: &mut CpuState, m: Mnemonic, val: u8) -> (r: u8)
    requires
        executor_of(m) == Executor::Rotate,
    ensures
        (final(cpu).reg, r) == execute_spec(old(cpu).reg, m, val),
{
    let c: u16 = if cpu.carry() { 1 } else { 0 };
    let (res, carry) = if m == Mnemonic::ROL {
        (((val as u16 * 2 + c) % 256) as u8, val >= 128)
    } else {
        ((val as u16 / 2 + c * 128) as u8, val % 2 == 1)
    };
    set_nz_flags(cpu, res);
    cpu.set_carry(carry);
    res
}

fn op_shift(cpu: &mut CpuState, m: Mnemonic, val: u8) -> (r: u8)
    requires
        executor_of(m) == Executor::Shift,
    ensures
        (final(cpu).reg, r) == execute_spec(old(cpu).reg, m, val),
{
    let (res, carry) = if m == Mnemonic::ASL {
        ((val as u16 * 2 % 256) as u8, val >= 128)
    } else {
        (val / 2, val % 2 == 1)
    };
    set_nz_flags(cpu, res);
    cpu.set_carry(carry);
    res
}

fn op_store(cpu: &CpuState, m: Mnemonic) -> (r: u8)
    requires
        executor_of(m) == Executor::Store,
    ensures
        r == execute_spec(cpu.reg, m, 0).1,
{
    match m {
        Mnemonic::STA => cpu.a(),
        Mnemonic::STX => cpu.x(),
        _ => cpu.y(),
    }
}

fn op_transfer(cpu: &mut CpuState, m: Mnemonic) -> (r: u8)
    requires
        executor_of(m) == Executor::Transfer,
    ensures
        (final(cpu).reg, r) == execute_spec(old(cpu).reg, m, 0),
{
    match m {
        Mnemonic::TXS => {
            let v = cpu.x();
            cpu.set_sp(v);
            v
        },
        _ => {
            let v = match m {
                Mnemonic::TAX | Mnemonic::TAY => cpu.a(),
                Mnemonic::TXA => cpu.x(),
                Mnemonic::TYA => cpu.y(),
                _ => cpu.sp(),
            };
            match m {
                Mnemonic::TAX | Mnemonic::TSX => cpu.set_x(v),
                Mnemonic::TAY => cpu.set_y(v),
                _ => cpu.set_a(v),
            }
            set_nz_flags(cpu, v);
            v
        },
    }
}

/// Evaluates the semantics of `op` on the value `val` the stepper has fetched (ignored
/// by instructions without a memory operand), updating the registers.
pub fn execute_operation(cpu: &mut CpuState, op: &OperationDef, val: u8) -> (r: u8)
    requires
        has_executor(op.mnemonic),
        op.executor == executor_of(op.mnemonic),
    ensures
        (final(cpu).reg, r) == execute_spec(old(cpu).reg, op.mnemonic, val),
        old(cpu).wf() ==> final(cpu).wf(),
{
    let m = op.mnemonic;
    let r = match op.executor {
        Executor::Arithmetic => op_arithmetic(cpu, m, val),
        Executor::Bit => op_bit(cpu, val),
        Executor::Bitwise => op_bitwise(cpu, m, val),
        Executor::Branch => op_branch(cpu, m),
        Executor::Compare => op_compare(cpu, m, val),
        Executor::Flag => op_flag(cpu, m),
        Executor::IncDecMem => op_incdec_mem(cpu, m, val),
        Executor::IncDecReg => op_incdec_reg(cpu, m),
        Executor::Load => op_load(cpu, m, val),
        Executor::Pla => op_pla(cpu, val),
        Executor::Plp => op_plp(cpu, val),
        Executor::Push => op_push(cpu, m),
        Executor::Rotate => op_rotate(cpu, m, val),
        Executor::Shift => op_shift(cpu, m, val),
        Executor::Store => op_store(cpu, m),
        Executor::Transfer => op_transfer(cpu, m),
        _ => 0,
    };
    proof {
        if old(cpu).wf() {
            lemma_keeps_bit5(old(cpu).reg, m, val);
        }
    }
    r
}

/// Bit 5 of P stays set through every evaluation.
pub proof fn lemma_keeps_bit5(r: Registers, m: Mnemonic, val: u8)
    requires
        r.wf(),
    ensures
        execute_spec(r, m, val).0.wf(),
{
    lemma_with_bit_all();
}

/// Every evaluation keeps bit 5 of the status register set, and each flag instruction
/// sets or clears exactly its own flag: CLC clears C, SEC sets C, CLI clears I, SEI sets I,
/// CLD clears D, SED sets D, CLV clears V.
pub proof fn lemma_status_flags(r: Registers, m: Mnemonic, val: u8)
    requires
        r.wf(),
    ensures
        execute_spec(r, m, val).0.wf(),
        m == Mnemonic::CLC ==> !bit(execute_spec(r, m, val).0.p, CARRY),
        m == Mnemonic::SEC ==> bit(execute_spec(r, m, val).0.p, CARRY),
        m == Mnemonic::CLI ==> !bit(execute_spec(r, m, val).0.p, INTERRUPT),
        m == Mnemonic::SEI ==> bit(execute_spec(r, m, val).0.p, INTERRUPT),
        m == Mnemonic::CLD ==> !bit(execute_spec(r, m, val).0.p, DECIMAL),
        m == Mnemonic::SED ==> bit(execute_spec(r, m, val).0.p, DECIMAL),
        m == Mnemonic::CLV ==> !bit(execute_spec(r, m, val).0.p, OVERFLOW),
        executor_of(m) == Executor::Flag ==> forall|j: u8|
            j < 8 && j != flag_bit(m) ==> bit(#[trigger] execute_spec(r, m, val).0.p, j) == bit(
                r.p,
                j,
            ),
{
    lemma_keeps_bit5(r, m, val);
    if executor_of(m) == Executor::Flag {
        let i = flag_bit(m);
        let b = m == Mnemonic::SEC || m == Mnemonic::SEI || m == Mnemonic::SED;
        assert(execute_spec(r, m, val).0.p == with_bit(r.p, i, b));
        lemma_with_bit(r.p, i, i, b);
        assert forall|j: u8| j < 8 && j != flag_bit(m) implies bit(
            #[trigger] execute_spec(r, m, val).0.p,
            j,
        ) == bit(r.p, j) by {
            lemma_with_bit(r.p, i, j, b);
        }
    }
}

/// The status bit that a flag instruction changes.
pub open spec fn flag_bit(m: Mnemonic) -> u8 {
    match m {
        Mnemonic::CLC | Mnemonic::SEC => CARRY,
        Mnemonic::CLI | Mnemonic::SEI => INTERRUPT,
        Mnemonic::CLD | Mnemonic::SED => DECIMAL,
        _ => OVERFLOW,
    }
}

} // verus!
