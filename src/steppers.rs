use vstd::prelude::*;
use crate::alu::{branch_taken, execute_operation, execute_spec, has_executor, lemma_status_flags, pulled_p};
use crate::opcodes::{
    def_of, executor_of, AddressMode, Executor, Mnemonic, Operand, OperationDef,
};
use crate::state::{lemma_masks, lemma_with_bit_all, CpuState, Registers};

verus! {

/// The lines through which the processor talks to the bus.
#[derive(Debug, Clone, Copy, PartialEq, Eq)]
pub struct CpuBus {
    /// Address lines A0..A15.
    pub addr: u16,
    /// Data lines D0..D7: the byte driven by the processor on a write, or the byte
    /// latched from the bus on a read.
    pub data: u8,
    /// R/W line: high for a read, low for a write.
    pub read: bool,
    /// SYNC line: high while an opcode is fetched.
    pub sync: bool,
}

impl CpuBus {
    pub fn new() -> (r: CpuBus)
        ensures
            r == (CpuBus { addr: 0, data: 0, read: true, sync: false }),
    {
        CpuBus { addr: 0, data: 0, read: true, sync: false }
    }
}

/// The address `hi:lo`.
pub open spec fn word(lo: u8, hi: u8) -> u16 {
    (hi * 256 + lo) as u16
}

pub fn make_word(lo: u8, hi: u8) -> (r: u16)
    ensures
        r == word(lo, hi),
{
    hi as u16 * 256 + lo as u16
}

/// The index register an address mode adds.
pub open spec fn index_reg(r: Registers, mode: AddressMode) -> u8 {
    match mode {
        AddressMode::ZeroPageY | AddressMode::AbsoluteY | AddressMode::IndirectY => r.y,
        _ => r.x,
    }
}

/// Target of a branch at `pc` (the address after the offset byte) with offset `off`.
pub open spec fn branch_target(pc: u16, off: u8) -> u16 {
    if off >= 128 {
        pc.wrapping_add(off as u16).wrapping_sub(256)
    } else {
        pc.wrapping_add(off as u16)
    }
}

/// Address of a stack slot.
pub open spec fn stack_addr(sp: u8) -> u16 {
    word(sp, 1)
}

/// The per-instruction micro-programs.
#[derive(Debug, Clone, Copy, PartialEq, Eq, Structural)]
pub enum StepperKind {
    /// Reads the reset vector into PC.
    Init,
    /// Fetches the next opcode into IR.
    ReadOpcode,
    /// Implicit, accumulator and immediate instructions.
    NoMem,
    Read,
    Write,
    /// Read-modify-write on memory.
    Rmw,
    Branch,
    Push,
    Pull,
    Jsr,
    RtsRti,
    Jmp,
}

/// The stepper that carries out an instruction; `None` where none exists (BRK).
pub open spec fn kind_of(m: Mnemonic, mode: AddressMode) -> Option<StepperKind> {
    match executor_of(m) {
        Executor::Push => Some(StepperKind::Push),
        Executor::Pla | Executor::Plp => Some(StepperKind::Pull),
        Executor::Branch => Some(StepperKind::Branch),
        Executor::Control => match m {
            Mnemonic::JSR => Some(StepperKind::Jsr),
            Mnemonic::RTS | Mnemonic::RTI => Some(StepperKind::RtsRti),
            Mnemonic::JMP => Some(StepperKind::Jmp),
            _ => None,
        },
        _ => match mode {
            AddressMode::Implicit | AddressMode::Accumulator | AddressMode::Immediate => Some(
                StepperKind::NoMem,
            ),
            _ => if !memory_mode(mode) {
                None
            } else if executor_of(m) == Executor::Store {
                Some(StepperKind::Write)
            } else if executor_of(m) == Executor::Shift || executor_of(m) == Executor::Rotate
                || executor_of(m) == Executor::IncDecMem {
                Some(StepperKind::Rmw)
            } else {
                Some(StepperKind::Read)
            },
        },
    }
}

/// An instruction table entry as the table builds it.
pub open spec fn op_valid(op: OperationDef) -> bool {
    op == def_of(op.opcode, op.mnemonic, op.address_mode)
}

/// A memory address mode that the address decoder handles.
pub open spec fn memory_mode(mode: AddressMode) -> bool {
    match mode {
        AddressMode::ZeroPage | AddressMode::ZeroPageX | AddressMode::ZeroPageY
        | AddressMode::Absolute | AddressMode::AbsoluteX | AddressMode::AbsoluteY
        | AddressMode::IndirectX | AddressMode::IndirectY => true,
        _ => false,
    }
}

/// A stepper of kind `k` may run `op`.
pub open spec fn kind_fits(k: StepperKind, op: OperationDef) -> bool {
    match k {
        StepperKind::Init | StepperKind::ReadOpcode => true,
        _ => op_valid(op) && kind_of(op.mnemonic, op.address_mode) == Some(k),
    }
}

/// Bus cycles spent computing the effective address. A page crossing while indexing
/// costs one more cycle; writes and read-modify-writes always take it.
pub open spec fn addr_len(mode: AddressMode, crossed: bool, fix: bool) -> int {
    let extra: int = if crossed || fix { 1 } else { 0 };
    match mode {
        AddressMode::ZeroPage => 1,
        AddressMode::ZeroPageX | AddressMode::ZeroPageY | AddressMode::Absolute => 2,
        AddressMode::AbsoluteX | AddressMode::AbsoluteY => 2 + extra,
        AddressMode::IndirectX => 4,
        AddressMode::IndirectY => 3 + extra,
        _ => 0,
    }
}

/// Whole cycles a stepper takes, the opcode fetch included: the table's cycle count,
/// one more for a page crossing on an indexed read, and for a branch one more when it
/// is taken and another when the target lies on another page.
pub open spec fn expected_cycles(k: StepperKind, op: OperationDef, crossed: bool, taken: bool) -> int {
    match k {
        StepperKind::Init => 2,
        StepperKind::ReadOpcode => 1,
        StepperKind::Branch => 2 + (if taken { 1int } else { 0 }) + (if taken && crossed {
            1int
        } else {
            0
        }),
        StepperKind::Read => op.cycles + (if crossed { 1int } else { 0 }),
        _ => op.cycles as int,
    }
}

/// What a stepper reports when it returns.
#[derive(Debug, Clone, Copy, PartialEq, Eq)]
pub struct StepperResult {
    /// IR holds an opcode that the next stepper is to carry out.
    pub has_opcode: bool,
    pub operand: Operand,
    /// An instruction was completed.
    pub completed: bool,
}

impl StepperResult {
    pub fn new(has_opcode: bool, operand: Operand) -> (r: StepperResult)
        ensures
            r == (StepperResult { has_opcode, operand, completed: true }),
    {
        StepperResult { has_opcode, operand, completed: true }
    }

    pub fn partial(has_opcode: bool) -> (r: StepperResult)
        ensures
            r == (StepperResult { has_opcode, operand: Operand::Absent, completed: false }),
    {
        StepperResult { has_opcode, operand: Operand::Absent, completed: false }
    }
}

/// A resumable micro-program. Every call of `step` is one half-cycle: the first half of a
/// bus cycle drives the address (and the data of a write), the second takes the data read.
#[derive(Debug, Clone, Copy, PartialEq, Eq)]
pub struct Stepper {
    pub kind: StepperKind,
    pub op: OperationDef,
    /// Bus cycles completed, the opcode fetch included.
    pub cycle: u8,
    /// The first half of the current cycle is done.
    pub half: bool,
    pub finished: bool,
    /// Indexing crossed a page, or a taken branch lands on another page.
    pub crossed: bool,
    /// The branch is taken.
    pub taken: bool,
    /// First operand byte.
    pub lo: u8,
    /// Second operand byte.
    pub hi: u8,
    /// Pointer bytes read from zero page or the stack.
    pub ptr_lo: u8,
    pub ptr_hi: u8,
    /// The value being worked on by a read-modify-write.
    pub val: u8,
    /// Effective address.
    pub ea: u16,
    pub operand: Operand,
}

impl Stepper {
    pub open spec fn total(&self) -> int {
        expected_cycles(self.kind, self.op, self.crossed, self.taken)
    }

    pub open spec fn is_memory(&self) -> bool {
        self.kind == StepperKind::Read || self.kind == StepperKind::Write || self.kind == StepperKind::Rmw
    }

    pub open spec fn fix(&self) -> bool {
        self.kind == StepperKind::Write || self.kind == StepperKind::Rmw
    }

    pub open spec fn alen(&self) -> int {
        addr_len(self.op.address_mode, self.crossed, self.fix())
    }

    /// Index of the current cycle among the address cycles of a memory instruction.
    pub open spec fn j(&self) -> int {
        self.cycle - 1
    }

    /// The current cycle is past the address cycles.
    pub open spec fn in_body(&self) -> bool {
        self.j() >= self.alen()
    }

    pub open spec fn wf(&self) -> bool {
        &&& kind_fits(self.kind, self.op)
        &&& self.total() <= 8
        &&& (!self.finished ==> self.cycle < self.total())
        &&& (self.finished ==> self.cycle == self.total() && !self.half)
        &&& (self.kind != StepperKind::Init && self.kind != StepperKind::ReadOpcode ==> self.cycle
            >= 1)
    }

    /// `next` is `self` after a phase: same program and position, flags only raised.
    pub open spec fn keeps_shape(&self, next: Stepper) -> bool {
        &&& next.kind == self.kind
        &&& next.op == self.op
        &&& next.cycle == self.cycle
        &&& next.half == self.half
        &&& next.finished == self.finished
        &&& (self.crossed ==> next.crossed)
        &&& (self.taken ==> next.taken)
        &&& (self.kind != StepperKind::Branch ==> next.taken == self.taken)
    }

    fn fresh(kind: StepperKind, op: OperationDef, cycle: u8) -> (r: Stepper)
        ensures
            r == fresh_spec(kind, op, cycle),
    {
        Stepper {
            kind,
            op,
            cycle,
            half: false,
            finished: false,
            crossed: false,
            taken: false,
            lo: 0,
            hi: 0,
            ptr_lo: 0,
            ptr_hi: 0,
            val: 0,
            ea: 0,
            operand: Operand::Absent,
        }
    }

    /// No half-cycle of this stepper has run yet.
    pub open spec fn starting(&self) -> bool {
        !self.half && !self.finished && self.cycle == (if self.kind == StepperKind::Init
            || self.kind == StepperKind::ReadOpcode {
            0int
        } else {
            1
        })
    }

    /// No half-cycle of this stepper has run yet.
    pub fn at_start(&self) -> (r: bool)
        ensures
            r == self.starting(),
    {
        let first: u8 = if self.kind == StepperKind::Init || self.kind == StepperKind::ReadOpcode {
            0
        } else {
            1
        };
        !self.half && !self.finished && self.cycle == first
    }

    fn total_exec(&self) -> (r: u8)
        requires
            kind_fits(self.kind, self.op),
        ensures
            r == self.total(),
    {
        match self.kind {
            StepperKind::Init => 2,
            StepperKind::ReadOpcode => 1,
            StepperKind::Branch => 2 + (if self.taken { 1u8 } else { 0 }) + (if self.taken
                && self.crossed {
                1u8
            } else {
                0
            }),
            StepperKind::Read => self.op.cycles + (if self.crossed { 1u8 } else { 0 }),
            _ => self.op.cycles,
        }
    }

    fn alen_exec(&self) -> (r: u8)
        ensures
            r == self.alen(),
    {
        let extra: u8 = if self.crossed || self.kind == StepperKind::Write || self.kind
            == StepperKind::Rmw {
            1
        } else {
            0
        };
        match self.op.address_mode {
            AddressMode::ZeroPage => 1,
            AddressMode::ZeroPageX | AddressMode::ZeroPageY | AddressMode::Absolute => 2,
            AddressMode::AbsoluteX | AddressMode::AbsoluteY => 2 + extra,
            AddressMode::IndirectX => 4,
            AddressMode::IndirectY => 3 + extra,
            _ => 0,
        }
    }
}

fn request_read(bus: &mut CpuBus, addr: u16)
    ensures
        *final(bus) == (CpuBus { addr, read: true, ..*old(bus) }),
{
    bus.addr = addr;
    bus.read = true;
}

fn request_write(bus: &mut CpuBus, addr: u16, val: u8)
    ensures
        *final(bus) == (CpuBus { addr, read: false, data: val, ..*old(bus) }),
{
    bus.addr = addr;
    bus.read = false;
    bus.data = val;
}

fn stack(sp: u8) -> (r: u16)
    ensures
        r == stack_addr(sp),
{
    make_word(sp, 1)
}

/// The index register of an indexed address mode.
fn index_of(cpu: &CpuState, mode: AddressMode) -> (r: u8)
    ensures
        r == (match mode {
            AddressMode::ZeroPageY | AddressMode::AbsoluteY | AddressMode::IndirectY => cpu.reg.y,
            _ => cpu.reg.x,
        }),
{
    match mode {
        AddressMode::ZeroPageY | AddressMode::AbsoluteY | AddressMode::IndirectY => cpu.y(),
        _ => cpu.x(),
    }
}

impl Stepper {
    /// What the first half of a memory instruction's cycle puts on the bus: the operand
    /// bytes at PC, the unindexed zero-page pointer and
    /// page-crossing dummy reads, the pointer bytes of the indirect modes (wrapping in zero
    /// page), and in the body the effective address: read, or written with the stored value.
    pub open spec fn memory_bus(&self, cpu: CpuState, bus: CpuBus) -> CpuBus {
        let mode = self.op.address_mode;
        let idx = index_reg(cpu.reg, mode);
        let read_at = |a: u16| CpuBus { addr: a, read: true, ..bus };
        if !self.in_body() {
            if self.j() == 0 {
                read_at(cpu.reg.pc)
            } else {
                match mode {
                    AddressMode::ZeroPageX | AddressMode::ZeroPageY => read_at(word(self.lo, 0)),
                    AddressMode::AbsoluteX | AddressMode::AbsoluteY => if self.j() == 1 {
                        read_at(cpu.reg.pc)
                    } else {
                        read_at(word(self.lo.wrapping_add(idx), self.hi))
                    },
                    AddressMode::IndirectX => if self.j() == 1 {
                        read_at(word(self.lo, 0))
                    } else if self.j() == 2 {
                        read_at(word(self.lo.wrapping_add(cpu.reg.x), 0))
                    } else {
                        read_at(word(self.lo.wrapping_add(cpu.reg.x).wrapping_add(1), 0))
                    },
                    AddressMode::IndirectY => if self.j() == 1 {
                        read_at(word(self.lo, 0))
                    } else if self.j() == 2 {
                        read_at(word(self.lo.wrapping_add(1), 0))
                    } else {
                        read_at(word(self.ptr_lo.wrapping_add(cpu.reg.y), self.ptr_hi))
                    },
                    _ => read_at(cpu.reg.pc),
                }
            }
        } else if self.kind == StepperKind::Write {
            CpuBus {
                addr: self.ea,
                read: false,
                data: execute_spec(cpu.reg, self.op.mnemonic, 0).1,
                ..bus
            }
        } else if self.kind == StepperKind::Rmw && self.j() - self.alen() >= 1 {
            CpuBus { addr: self.ea, read: false, data: self.val, ..bus }
        } else {
            read_at(self.ea)
        }
    }

    /// What the second half of a memory instruction's cycle does with the byte on the bus:
    /// the stepper and registers afterwards. The first operand byte is latched and PC
    /// advanced; the effective address is computed once the operand bytes are in, and the
    /// page-cross flag is raised on that cycle alone, exactly when the low byte plus the
    /// index carries; a read applies the executor to the byte read; a read-modify-write
    /// latches the byte, then evaluates it. Every other cycle changes nothing.
    pub open spec fn memory_next(&self, r: Registers, data: u8) -> (Stepper, Registers) {
        let mode = self.op.address_mode;
        let idx = index_reg(r, mode);
        let pc1 = Registers { pc: r.pc.wrapping_add(1), ..r };
        if !self.in_body() {
            if self.j() == 0 {
                (
                    Stepper {
                        lo: data,
                        ea: if mode == AddressMode::ZeroPage {
                            word(data, 0)
                        } else {
                            self.ea
                        },
                        operand: Operand::Byte(data),
                        ..*self
                    },
                    pc1,
                )
            } else {
                match mode {
                    AddressMode::ZeroPageX | AddressMode::ZeroPageY => (
                        Stepper { ea: word(self.lo.wrapping_add(idx), 0), ..*self },
                        r,
                    ),
                    AddressMode::Absolute | AddressMode::AbsoluteX | AddressMode::AbsoluteY => if self.j()
                        == 1 {
                        let base = word(self.lo, data);
                        (
                            Stepper {
                                hi: data,
                                operand: Operand::Word(base),
                                ea: if mode == AddressMode::Absolute {
                                    base
                                } else {
                                    base.wrapping_add(idx as u16)
                                },
                                crossed: self.crossed || (mode != AddressMode::Absolute && self.lo
                                    + idx > 255),
                                ..*self
                            },
                            pc1,
                        )
                    } else {
                        (*self, r)
                    },
                    AddressMode::IndirectX => if self.j() == 2 {
                        (Stepper { ptr_lo: data, ..*self }, r)
                    } else if self.j() == 3 {
                        (Stepper { ptr_hi: data, ea: word(self.ptr_lo, data), ..*self }, r)
                    } else {
                        (*self, r)
                    },
                    _ => if self.j() == 1 {
                        (Stepper { ptr_lo: data, ..*self }, r)
                    } else if self.j() == 2 {
                        (
                            Stepper {
                                ptr_hi: data,
                                ea: word(self.ptr_lo, data).wrapping_add(r.y as u16),
                                crossed: self.crossed || self.ptr_lo + r.y > 255,
                                ..*self
                            },
                            r,
                        )
                    } else {
                        (*self, r)
                    },
                }
            }
        } else if self.kind == StepperKind::Read {
            (*self, execute_spec(r, self.op.mnemonic, data).0)
        } else if self.kind == StepperKind::Rmw && self.j() == self.alen() {
            (Stepper { val: data, ..*self }, r)
        } else if self.kind == StepperKind::Rmw && self.j() == self.alen() + 1 {
            let (nr, v) = execute_spec(r, self.op.mnemonic, self.val);
            (Stepper { val: v, ..*self }, nr)
        } else {
            (*self, r)
        }
    }
}

impl Stepper {
    /// First half of a bus cycle of an instruction that reads, writes or modifies memory.
    fn memory_address_phase(&mut self, cpu: &mut CpuState, bus: &mut CpuBus)
        requires
            old(self).wf(),
            !old(self).finished,
            old(cpu).wf(),
            old(self).kind == StepperKind::Read || old(self).kind == StepperKind::Write
                || old(self).kind == StepperKind::Rmw,
        ensures
            old(self).keeps_shape(*final(self)),
            final(cpu).wf(),
            *final(self) == *old(self),
            final(cpu).reg == old(cpu).reg,
            *final(bus) == old(self).memory_bus(*old(cpu), *old(bus)),
    {
        let alen = self.alen_exec();
        let mode = self.op.address_mode;
        if self.cycle - 1 < alen {
            let j = self.cycle - 1;
            let addr = if j == 0 {
                cpu.pc()
            } else {
                match mode {
                    AddressMode::ZeroPageX | AddressMode::ZeroPageY => make_word(self.lo, 0),
                    AddressMode::AbsoluteX | AddressMode::AbsoluteY => if j == 1 {
                        cpu.pc()
                    } else {
                        make_word(self.lo.wrapping_add(index_of(cpu, mode)), self.hi)
                    },
                    AddressMode::IndirectX => if j == 1 {
                        make_word(self.lo, 0)
                    } else if j == 2 {
                        make_word(self.lo.wrapping_add(cpu.x()), 0)
                    } else {
                        make_word(self.lo.wrapping_add(cpu.x()).wrapping_add(1), 0)
                    },
                    AddressMode::IndirectY => if j == 1 {
                        make_word(self.lo, 0)
                    } else if j == 2 {
                        make_word(self.lo.wrapping_add(1), 0)
                    } else {
                        make_word(self.ptr_lo.wrapping_add(cpu.y()), self.ptr_hi)
                    },
                    _ => cpu.pc(),
                }
            };
            request_read(bus, addr);
        } else {
            let b = self.cycle - 1 - alen;
            match self.kind {
                StepperKind::Write => {
                    let v = execute_operation(cpu, &self.op, 0);
                    request_write(bus, self.ea, v);
                },
                StepperKind::Rmw => if b == 0 {
                    request_read(bus, self.ea);
                } else {
                    request_write(bus, self.ea, self.val);
                },
                _ => request_read(bus, self.ea),
            }
        }
    }

    /// Second half of a bus cycle of an instruction that reads, writes or modifies memory.
    fn memory_data_phase(&mut self, cpu: &mut CpuState, bus: &CpuBus)
        requires
            old(self).wf(),
            !old(self).finished,
            old(cpu).wf(),
            old(self).kind == StepperKind::Read || old(self).kind == StepperKind::Write
                || old(self).kind == StepperKind::Rmw,
        ensures
            old(self).keeps_shape(*final(self)),
            final(cpu).wf(),
            (*final(self), final(cpu).reg) == old(self).memory_next(old(cpu).reg, bus.data),
            final(self).crossed == old(self).crossed || old(self).cycle + 1 < old(self).total(),
    {
        let alen = self.alen_exec();
        let mode = self.op.address_mode;
        if self.cycle - 1 < alen {
            let j = self.cycle - 1;
            if j == 0 {
                self.lo = bus.data;
                cpu.inc_pc();
                if mode == AddressMode::ZeroPage {
                    self.ea = make_word(self.lo, 0);
                }
                self.operand = Operand::Byte(self.lo);
            } else {
                match mode {
                    AddressMode::ZeroPageX | AddressMode::ZeroPageY => {
                        self.ea = make_word(self.lo.wrapping_add(index_of(cpu, mode)), 0);
                    },
                    AddressMode::Absolute | AddressMode::AbsoluteX | AddressMode::AbsoluteY => {
                        if j == 1 {
                            self.hi = bus.data;
                            cpu.inc_pc();
                            let base = make_word(self.lo, self.hi);
                            self.operand = Operand::Word(base);
                            if mode == AddressMode::Absolute {
                                self.ea = base;
                            } else {
                                let idx = index_of(cpu, mode);
                                self.ea = base.wrapping_add(idx as u16);
                                if self.lo as u16 + idx as u16 > 255 {
                                    self.crossed = true;
                                }
                            }
                        }
                    },
                    AddressMode::IndirectX => {
                        if j == 2 {
                            self.ptr_lo = bus.data;
                        } else if j == 3 {
                            self.ptr_hi = bus.data;
                            self.ea = make_word(self.ptr_lo, self.ptr_hi);
                        }
                    },
                    _ => {
                        if j == 1 {
                            self.ptr_lo = bus.data;
                        } else if j == 2 {
                            self.ptr_hi = bus.data;
                            let y = cpu.y();
                            self.ea = make_word(self.ptr_lo, self.ptr_hi).wrapping_add(y as u16);
                            if self.ptr_lo as u16 + y as u16 > 255 {
                                self.crossed = true;
                            }
                        }
                    },
                }
            }
        } else {
            let b = self.cycle - 1 - alen;
            match self.kind {
                StepperKind::Read => {
                    execute_operation(cpu, &self.op, bus.data);
                },
                StepperKind::Rmw => if b == 0 {
                    self.val = bus.data;
                } else if b == 1 {
                    self.val = execute_operation(cpu, &self.op, self.val);
                },
                _ => {},
            }
        }
    }
}

impl Stepper {
    /// What the first half of a cycle of the other steppers puts on the bus (cycle `k` of
    /// the instruction is `self.cycle + 1`).
    pub open spec fn control_bus(&self, cpu: CpuState, bus: CpuBus) -> CpuBus {
        let read_at = |a: u16| CpuBus { addr: a, read: true, ..bus };
        let write_at = |a: u16, v: u8| CpuBus { addr: a, read: false, data: v, ..bus };
        let c = self.cycle;
        let sp = stack_addr(cpu.reg.sp);
        match self.kind {
            StepperKind::Init => read_at(if c == 0 { 0xfffcu16 } else { 0xfffdu16 }),
            StepperKind::ReadOpcode => CpuBus { addr: cpu.reg.pc, read: true, sync: true, ..bus },
            StepperKind::Push => if c == 1 {
                read_at(cpu.reg.pc)
            } else {
                write_at(sp, execute_spec(cpu.reg, self.op.mnemonic, 0).1)
            },
            StepperKind::Pull => if c == 1 {
                read_at(cpu.reg.pc)
            } else {
                read_at(sp)
            },
            StepperKind::Jsr => if c == 2 {
                read_at(sp)
            } else if c == 3 {
                write_at(sp, (cpu.reg.pc / 256) as u8)
            } else if c == 4 {
                write_at(sp, (cpu.reg.pc % 256) as u8)
            } else {
                read_at(cpu.reg.pc)
            },
            StepperKind::RtsRti => if c == 1 || (c == 5 && self.op.mnemonic == Mnemonic::RTS) {
                read_at(cpu.reg.pc)
            } else {
                read_at(sp)
            },
            StepperKind::Jmp => if c == 3 {
                read_at(word(self.lo, self.hi))
            } else if c == 4 {
                read_at(word(self.lo.wrapping_add(1), self.hi))
            } else {
                read_at(cpu.reg.pc)
            },
            _ => read_at(cpu.reg.pc),
        }
    }

    /// What the second half of a cycle of the other steppers does with the byte on the bus:
    /// the stepper and registers afterwards, every byte latched and every register written
    /// being named; all else is kept.
    pub open spec fn control_next(&self, r: Registers, data: u8) -> (Stepper, Registers) {
        let c = self.cycle;
        let m = self.op.mnemonic;
        let pc1 = Registers { pc: r.pc.wrapping_add(1), ..r };
        let sp_up = Registers { sp: r.sp.wrapping_add(1), ..r };
        let sp_down = Registers { sp: r.sp.wrapping_sub(1), ..r };
        match self.kind {
            StepperKind::Init => if c == 0 {
                (*self, Registers { pc: (r.pc / 256 * 256 + data) as u16, ..r })
            } else {
                (*self, Registers { pc: (data * 256 + r.pc % 256) as u16, ..r })
            },
            StepperKind::ReadOpcode => (*self, Registers { ir: data, pc: r.pc.wrapping_add(1), ..r }),
            StepperKind::NoMem => if self.op.address_mode == AddressMode::Immediate {
                (Stepper { operand: Operand::Byte(data), ..*self }, execute_spec(pc1, m, data).0)
            } else if self.op.address_mode == AddressMode::Accumulator {
                let (nr, res) = execute_spec(r, m, r.a);
                (*self, Registers { a: res, ..nr })
            } else {
                (*self, execute_spec(r, m, 0).0)
            },
            StepperKind::Branch => if c == 1 {
                (
                    Stepper {
                        lo: data,
                        operand: Operand::Byte(data),
                        taken: self.taken || branch_taken(m, r.p),
                        ..*self
                    },
                    pc1,
                )
            } else if c == 2 {
                let t = branch_target(r.pc, self.lo);
                (
                    Stepper { ea: t, crossed: self.crossed || t / 256 != r.pc / 256, ..*self },
                    Registers { pc: (r.pc / 256 * 256 + t % 256) as u16, ..r },
                )
            } else {
                (*self, Registers { pc: (self.ea / 256 * 256 + r.pc % 256) as u16, ..r })
            },
            StepperKind::Push => if c == 2 {
                (*self, sp_down)
            } else {
                (*self, r)
            },
            StepperKind::Pull => if c == 2 {
                (*self, sp_up)
            } else if c == 3 {
                (*self, execute_spec(r, m, data).0)
            } else {
                (*self, r)
            },
            StepperKind::Jsr => if c == 1 {
                (Stepper { lo: data, ..*self }, pc1)
            } else if c == 3 || c == 4 {
                (*self, sp_down)
            } else if c == 5 {
                (
                    Stepper { hi: data, operand: Operand::Word(word(self.lo, data)), ..*self },
                    Registers { pc: word(self.lo, data), ..r },
                )
            } else {
                (*self, r)
            },
            StepperKind::RtsRti => if c == 2 {
                (*self, sp_up)
            } else if c == 3 {
                if m == Mnemonic::RTI {
                    (*self, Registers { p: pulled_p(r.p, data), sp: r.sp.wrapping_add(1), ..r })
                } else {
                    (Stepper { ptr_lo: data, ..*self }, sp_up)
                }
            } else if c == 4 {
                if m == Mnemonic::RTI {
                    (Stepper { ptr_lo: data, ..*self }, sp_up)
                } else {
                    (Stepper { ptr_hi: data, ..*self }, r)
                }
            } else if c == 5 {
                if m == Mnemonic::RTI {
                    (Stepper { ptr_hi: data, ..*self }, Registers { pc: word(self.ptr_lo, data), ..r })
                } else {
                    (*self, Registers { pc: word(self.ptr_lo, self.ptr_hi).wrapping_add(1), ..r })
                }
            } else {
                (*self, r)
            },
            StepperKind::Jmp => if c == 1 {
                (Stepper { lo: data, ..*self }, pc1)
            } else if c == 2 {
                (
                    Stepper { hi: data, operand: Operand::Word(word(self.lo, data)), ..*self },
                    if self.op.address_mode == AddressMode::Indirect {
                        pc1
                    } else {
                        Registers { pc: word(self.lo, data), ..r }
                    },
                )
            } else if c == 3 {
                (Stepper { ptr_lo: data, ..*self }, r)
            } else {
                (Stepper { ptr_hi: data, ..*self }, Registers { pc: word(self.ptr_lo, data), ..r })
            },
            _ => (*self, r),
        }
    }
}

impl Stepper {
    /// First half of a bus cycle of the steppers that do not decode a memory address.
    fn control_address_phase(&mut self, cpu: &mut CpuState, bus: &mut CpuBus)
        requires
            old(self).wf(),
            !old(self).finished,
            old(cpu).wf(),
            old(self).kind != StepperKind::Read && old(self).kind != StepperKind::Write
                && old(self).kind != StepperKind::Rmw,
        ensures
            old(self).keeps_shape(*final(self)),
            final(cpu).wf(),
            *final(self) == *old(self),
            final(cpu).reg == old(cpu).reg,
            *final(bus) == old(self).control_bus(*old(cpu), *old(bus)),
    {
        let k = self.cycle + 1;
        match self.kind {
            StepperKind::Init => request_read(bus, if k == 1 { 0xfffc } else { 0xfffd }),
            StepperKind::ReadOpcode => {
                bus.sync = true;
                request_read(bus, cpu.pc());
            },
            StepperKind::Push => if k == 2 {
                request_read(bus, cpu.pc());
            } else {
                let v = execute_operation(cpu, &self.op, 0);
                request_write(bus, stack(cpu.sp()), v);
            },
            StepperKind::Pull => if k == 2 {
                request_read(bus, cpu.pc());
            } else {
                request_read(bus, stack(cpu.sp()));
            },
            StepperKind::Jsr => if k == 3 {
                request_read(bus, stack(cpu.sp()));
            } else if k == 4 {
                request_write(bus, stack(cpu.sp()), cpu.pch());
            } else if k == 5 {
                request_write(bus, stack(cpu.sp()), cpu.pcl());
            } else {
                request_read(bus, cpu.pc());
            },
            StepperKind::RtsRti => if k == 2 || (k == 6 && self.op.mnemonic == Mnemonic::RTS) {
                request_read(bus, cpu.pc());
            } else {
                request_read(bus, stack(cpu.sp()));
            },
            StepperKind::Jmp => if k == 4 {
                request_read(bus, make_word(self.lo, self.hi));
            } else if k == 5 {
                request_read(bus, make_word(self.lo.wrapping_add(1), self.hi));
            } else {
                request_read(bus, cpu.pc());
            },
            _ => request_read(bus, cpu.pc()),
        }
    }

    /// Second half of a bus cycle of the steppers that do not decode a memory address.
    fn control_data_phase(&mut self, cpu: &mut CpuState, bus: &mut CpuBus)
        requires
            old(self).wf(),
            !old(self).finished,
            old(cpu).wf(),
            old(self).kind != StepperKind::Read && old(self).kind != StepperKind::Write
                && old(self).kind != StepperKind::Rmw,
        ensures
            old(self).keeps_shape(*final(self)),
            final(cpu).wf(),
            *final(bus) == (if old(self).kind == StepperKind::ReadOpcode {
                CpuBus { sync: false, ..*old(bus) }
            } else {
                *old(bus)
            }),
            (*final(self), final(cpu).reg) == old(self).control_next(old(cpu).reg, old(bus).data),
    {
        match self.kind {
            StepperKind::Branch => self.branch_data_phase(cpu, bus),
            StepperKind::Push | StepperKind::Pull | StepperKind::Jsr | StepperKind::RtsRti => self.stack_data_phase(cpu, bus),
            StepperKind::Jmp => self.jump_data_phase(cpu, bus),
            StepperKind::NoMem => self.no_mem_data_phase(cpu, bus),
            _ => self.fetch_data_phase(cpu, bus),
        }
    }

    /// Second half of the cycle of an implicit, accumulator or immediate instruction.
    fn no_mem_data_phase(&mut self, cpu: &mut CpuState, bus: &mut CpuBus)
        requires
            old(self).wf(),
            !old(self).finished,
            old(cpu).wf(),
            old(self).kind == StepperKind::NoMem,
        ensures
            old(self).keeps_shape(*final(self)),
            final(cpu).wf(),
            *final(bus) == (if old(self).kind == StepperKind::ReadOpcode {
                CpuBus { sync: false, ..*old(bus) }
            } else {
                *old(bus)
            }),
            (*final(self), final(cpu).reg) == old(self).control_next(old(cpu).reg, old(bus).data),
    {
        let data = bus.data;
        match self.kind {
            StepperKind::NoMem => {
                let val = match self.op.address_mode {
                    AddressMode::Immediate => {
                        cpu.inc_pc();
                        self.operand = Operand::Byte(data);
                        data
                    },
                    AddressMode::Accumulator => cpu.a(),
                    _ => 0,
                };
                let res = execute_operation(cpu, &self.op, val);
                if self.op.address_mode == AddressMode::Accumulator {
                    cpu.set_a(res);
                }
            },
            _ => {},
        }
    }

    /// Second half of a cycle of the reset-vector and opcode-fetch steppers.
    fn fetch_data_phase(&mut self, cpu: &mut CpuState, bus: &mut CpuBus)
        requires
            old(self).wf(),
            !old(self).finished,
            old(cpu).wf(),
            old(self).kind == StepperKind::Init || old(self).kind == StepperKind::ReadOpcode,
        ensures
            old(self).keeps_shape(*final(self)),
            final(cpu).wf(),
            *final(bus) == (if old(self).kind == StepperKind::ReadOpcode {
                CpuBus { sync: false, ..*old(bus) }
            } else {
                *old(bus)
            }),
            (*final(self), final(cpu).reg) == old(self).control_next(old(cpu).reg, old(bus).data),
    {
        let k = self.cycle + 1;
        let data = bus.data;
        match self.kind {
            StepperKind::Init => if k == 1 {
                cpu.set_pcl(data);
            } else {
                cpu.set_pch(data);
            },
            StepperKind::ReadOpcode => {
                cpu.set_ir(data);
                cpu.inc_pc();
                bus.sync = false;
            },
            _ => {},
        }
    }

    /// Second half of a cycle of a branch.
    fn branch_data_phase(&mut self, cpu: &mut CpuState, bus: &mut CpuBus)
        requires
            old(self).wf(),
            !old(self).finished,
            old(cpu).wf(),
            old(self).kind == StepperKind::Branch,
        ensures
            old(self).keeps_shape(*final(self)),
            final(cpu).wf(),
            *final(bus) == (if old(self).kind == StepperKind::ReadOpcode {
                CpuBus { sync: false, ..*old(bus) }
            } else {
                *old(bus)
            }),
            (*final(self), final(cpu).reg) == old(self).control_next(old(cpu).reg, old(bus).data),
    {
        let k = self.cycle + 1;
        let data = bus.data;
        match self.kind {
            StepperKind::Branch => if k == 2 {
                self.lo = data;
                cpu.inc_pc();
                self.operand = Operand::Byte(data);
                if execute_operation(cpu, &self.op, data) == 1 {
                    self.taken = true;
                }
            } else if k == 3 {
                let pc = cpu.pc();
                let target = if self.lo >= 128 {
                    pc.wrapping_add(self.lo as u16).wrapping_sub(256)
                } else {
                    pc.wrapping_add(self.lo as u16)
                };
                self.ea = target;
                if target / 256 != pc / 256 {
                    self.crossed = true;
                }
                cpu.set_pcl((target % 256) as u8);
            } else {
                cpu.set_pch((self.ea / 256) as u8);
            },
            _ => {},
        }
    }

    /// Second half of a cycle of the steppers that use the stack.
    fn stack_data_phase(&mut self, cpu: &mut CpuState, bus: &mut CpuBus)
        requires
            old(self).wf(),
            !old(self).finished,
            old(cpu).wf(),
            old(self).kind == StepperKind::Push || old(self).kind == StepperKind::Pull || old(self).kind == StepperKind::Jsr || old(self).kind == StepperKind::RtsRti,
        ensures
            old(self).keeps_shape(*final(self)),
            final(cpu).wf(),
            *final(bus) == (if old(self).kind == StepperKind::ReadOpcode {
                CpuBus { sync: false, ..*old(bus) }
            } else {
                *old(bus)
            }),
            (*final(self), final(cpu).reg) == old(self).control_next(old(cpu).reg, old(bus).data),
    {
        let k = self.cycle + 1;
        let data = bus.data;
        match self.kind {
            StepperKind::Push => if k == 3 {
                cpu.dec_sp();
            },
            StepperKind::Pull => if k == 3 {
                cpu.inc_sp();
            } else if k == 4 {
                execute_operation(cpu, &self.op, data);
            },
            StepperKind::Jsr => if k == 2 {
                self.lo = data;
                cpu.inc_pc();
            } else if k == 4 || k == 5 {
                cpu.dec_sp();
            } else if k == 6 {
                self.hi = data;
                let target = make_word(self.lo, self.hi);
                cpu.set_pc(target);
                self.operand = Operand::Word(target);
            },
            StepperKind::RtsRti => {
                let rti = self.op.mnemonic == Mnemonic::RTI;
                if k == 3 {
                    cpu.inc_sp();
                } else if k == 4 {
                    if rti {
                        crate::alu::restore_status(cpu, data);
                    } else {
                        self.ptr_lo = data;
                    }
                    cpu.inc_sp();
                } else if k == 5 {
                    if rti {
                        self.ptr_lo = data;
                        cpu.inc_sp();
                    } else {
                        self.ptr_hi = data;
                    }
                } else if k == 6 {
                    if rti {
                        self.ptr_hi = data;
                        cpu.set_pc(make_word(self.ptr_lo, self.ptr_hi));
                    } else {
                        cpu.set_pc(make_word(self.ptr_lo, self.ptr_hi).wrapping_add(1));
                    }
                }
            },
            _ => {},
        }
    }

    /// Second half of a cycle of JMP.
    fn jump_data_phase(&mut self, cpu: &mut CpuState, bus: &mut CpuBus)
        requires
            old(self).wf(),
            !old(self).finished,
            old(cpu).wf(),
            old(self).kind == StepperKind::Jmp,
        ensures
            old(self).keeps_shape(*final(self)),
            final(cpu).wf(),
            *final(bus) == (if old(self).kind == StepperKind::ReadOpcode {
                CpuBus { sync: false, ..*old(bus) }
            } else {
                *old(bus)
            }),
            (*final(self), final(cpu).reg) == old(self).control_next(old(cpu).reg, old(bus).data),
    {
        let k = self.cycle + 1;
        let data = bus.data;
        match self.kind {
            StepperKind::Jmp => if k == 2 {
                self.lo = data;
                cpu.inc_pc();
            } else if k == 3 {
                self.hi = data;
                let target = make_word(self.lo, self.hi);
                self.operand = Operand::Word(target);
                if self.op.address_mode == AddressMode::Indirect {
                    cpu.inc_pc();
                } else {
                    cpu.set_pc(target);
                }
            } else if k == 4 {
                self.ptr_lo = data;
            } else {
                self.ptr_hi = data;
                cpu.set_pc(make_word(self.ptr_lo, self.ptr_hi));
            },
            _ => {},
        }
    }

    /// Runs one half-cycle. Returns the result when the last cycle is complete: a stepper
    /// returns after exactly `expected_cycles` whole cycles, the table's count for its
    /// instruction plus the page-crossing and branch extras that occurred.
    #[verifier::rlimit(40)]
    pub fn step(&mut self, cpu: &mut CpuState, bus: &mut CpuBus) -> (r: Option<StepperResult>)
        requires
            old(self).wf(),
            old(cpu).wf(),
        ensures
            final(self).wf(),
            final(cpu).wf(),
            final(self).kind == old(self).kind,
            final(self).op == old(self).op,
            old(self).finished ==> *final(self) == *old(self) && *final(cpu) == *old(cpu)
                && r.is_none(),
            !old(self).finished && !old(self).half ==> final(self).half && final(self).cycle
                == old(self).cycle && r.is_none(),
            !old(self).finished && old(self).half ==> !final(self).half && final(self).cycle
                == old(self).cycle + 1 && (r.is_some() <==> final(self).finished),
            r.is_some() ==> final(self).finished && final(self).cycle == final(self).total(),
            (*final(self), *final(cpu), *final(bus), r) == step_spec(*old(self), *old(cpu), *old(bus)),
            !old(self).finished && !old(self).half ==> *final(cpu) == *old(cpu) && if old(self).is_memory() {
                *final(bus) == old(self).memory_bus(*old(cpu), *old(bus))
            } else {
                *final(bus) == old(self).control_bus(*old(cpu), *old(bus))
            },
            !old(self).finished && old(self).half ==> ({
                let next = if old(self).is_memory() {
                    old(self).memory_next(old(cpu).reg, old(bus).data)
                } else {
                    old(self).control_next(old(cpu).reg, old(bus).data)
                };
                &&& final(cpu).reg == next.1
                &&& *final(self) == Stepper {
                    half: false,
                    cycle: (old(self).cycle + 1) as u8,
                    finished: final(self).finished,
                    ..next.0
                }
                &&& *final(bus) == (if old(self).kind == StepperKind::ReadOpcode {
                    CpuBus { sync: false, ..*old(bus) }
                } else {
                    *old(bus)
                })
            }),
    {
        if self.finished {
            return None;
        }
        let memory = self.kind == StepperKind::Read || self.kind == StepperKind::Write
            || self.kind == StepperKind::Rmw;
        if !self.half {
            if memory {
                self.memory_address_phase(cpu, bus);
            } else {
                self.control_address_phase(cpu, bus);
            }
            self.half = true;
            return None;
        }
        if memory {
            self.memory_data_phase(cpu, bus);
        } else {
            self.control_data_phase(cpu, bus);
        }
        self.half = false;
        self.cycle = self.cycle + 1;
        if self.cycle < self.total_exec() {
            return None;
        }
        self.finished = true;
        proof {
            assert(self.cycle >= self.total());
        }
        Some(
            match self.kind {
                StepperKind::Init => StepperResult::partial(false),
                StepperKind::ReadOpcode => StepperResult::partial(true),
                _ => StepperResult::new(false, self.operand),
            },
        )
    }
}

/// What a stepper reports when its last cycle completes.
pub open spec fn result_of(kind: StepperKind, operand: Operand) -> StepperResult {
    match kind {
        StepperKind::Init => StepperResult { has_opcode: false, operand: Operand::Absent, completed: false },
        StepperKind::ReadOpcode => StepperResult { has_opcode: true, operand: Operand::Absent, completed: false },
        _ => StepperResult { has_opcode: false, operand, completed: true },
    }
}

/// One half-cycle of stepper `s` on registers `cpu` and bus lines `bus`: the stepper,
/// registers and bus lines afterwards, and the result when the last cycle completed.
pub open spec fn step_spec(s: Stepper, cpu: CpuState, bus: CpuBus) -> (Stepper, CpuState, CpuBus, Option<StepperResult>) {
    if s.finished {
        (s, cpu, bus, None)
    } else if !s.half {
        (
            Stepper { half: true, ..s },
            cpu,
            if s.is_memory() {
                s.memory_bus(cpu, bus)
            } else {
                s.control_bus(cpu, bus)
            },
            None,
        )
    } else {
        let next = if s.is_memory() {
            s.memory_next(cpu.reg, bus.data)
        } else {
            s.control_next(cpu.reg, bus.data)
        };
        let ns = Stepper { half: false, cycle: (s.cycle + 1) as u8, ..next.0 };
        let done = ns.cycle >= ns.total();
        (
            Stepper { finished: done, ..ns },
            CpuState { reg: next.1 },
            if s.kind == StepperKind::ReadOpcode {
                CpuBus { sync: false, ..bus }
            } else {
                bus
            },
            if done {
                Some(result_of(s.kind, ns.operand))
            } else {
                None
            },
        )
    }
}

/// A fresh stepper of kind `kind` for `op`, at cycle `cycle`, with nothing latched.
pub open spec fn fresh_spec(kind: StepperKind, op: OperationDef, cycle: u8) -> Stepper {
    Stepper {
        kind,
        op,
        cycle,
        half: false,
        finished: false,
        crossed: false,
        taken: false,
        lo: 0,
        hi: 0,
        ptr_lo: 0,
        ptr_hi: 0,
        val: 0,
        ea: 0,
        operand: Operand::Absent,
    }
}

/// The table entry that the reset and opcode-fetch steppers carry.
pub open spec fn nop_def() -> OperationDef {
    def_of(0xea, Mnemonic::NOP, AddressMode::Implicit)
}

/// Stepper that loads PC from the reset vector at $FFFC/$FFFD.
pub fn init_stepper() -> (r: Stepper)
    ensures
        r.wf(),
        r == fresh_spec(StepperKind::Init, nop_def(), 0),
{
    Stepper::fresh(StepperKind::Init, OperationDef::new(0xea, Mnemonic::NOP, AddressMode::Implicit), 0)
}

/// Stepper that fetches the next opcode into IR.
pub fn read_opcode() -> (r: Stepper)
    ensures
        r.wf(),
        r == fresh_spec(StepperKind::ReadOpcode, nop_def(), 0),
{
    Stepper::fresh(
        StepperKind::ReadOpcode,
        OperationDef::new(0xea, Mnemonic::NOP, AddressMode::Implicit),
        0,
    )
}

/// The stepper for an instruction whose opcode has been fetched; `None` for BRK.
pub fn get_stepper(op: &OperationDef) -> (r: Option<Stepper>)
    requires
        op_valid(*op),
    ensures
        r.is_some() <==> kind_of(op.mnemonic, op.address_mode).is_some(),
        r.is_some() ==> ({
            let s = r.unwrap();
            &&& s.wf()
            &&& s.op == *op
            &&& Some(s.kind) == kind_of(op.mnemonic, op.address_mode)
            &&& s == fresh_spec(s.kind, *op, 1)
        }),
{
    let ex = crate::opcodes::executor(op.mnemonic);
    let kind = match ex {
        Executor::Push => StepperKind::Push,
        Executor::Pla | Executor::Plp => StepperKind::Pull,
        Executor::Branch => StepperKind::Branch,
        Executor::Control => match op.mnemonic {
            Mnemonic::JSR => StepperKind::Jsr,
            Mnemonic::RTS | Mnemonic::RTI => StepperKind::RtsRti,
            Mnemonic::JMP => StepperKind::Jmp,
            _ => {
                return None;
            },
        },
        _ => match op.address_mode {
            AddressMode::Implicit | AddressMode::Accumulator | AddressMode::Immediate => StepperKind::NoMem,
            AddressMode::Relative | AddressMode::Indirect => {
                return None;
            },
            _ => if ex == Executor::Store {
                StepperKind::Write
            } else if ex == Executor::Shift || ex == Executor::Rotate || ex == Executor::IncDecMem {
                StepperKind::Rmw
            } else {
                StepperKind::Read
            },
        },
    };
    Some(Stepper::fresh(kind, *op, 1))
}

} // verus!
