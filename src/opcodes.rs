use vstd::prelude::*;

verus! {

/// The documented instruction names of the 6502.
#[derive(Debug, Clone, Copy, PartialEq, Eq, Structural)]
pub enum Mnemonic {
    ADC, AND, ASL, BCC, BCS, BEQ, BIT, BMI, BNE, BPL, BRK, BVC, BVS, CLC, CLD, CLI, CLV, CMP, CPX, CPY, DEC, DEX, DEY, EOR, INC, INX, INY, JMP, JSR, LDA, LDX, LDY, LSR, NOP, ORA, PHA, PHP, PLA, PLP, ROL, ROR, RTI, RTS, SBC, SEC, SED, SEI, STA, STX, STY, TAX, TAY, TSX, TXA, TXS, TYA,
}

/// How an instruction finds its operand.
#[derive(Debug, Clone, Copy, PartialEq, Eq, Structural)]
pub enum AddressMode {
    Implicit,
    Accumulator,
    Immediate,
    Relative,
    ZeroPage,
    ZeroPageX,
    ZeroPageY,
    Absolute,
    AbsoluteX,
    AbsoluteY,
    Indirect,
    IndirectX,
    IndirectY,
}

/// The operand bytes of a decoded instruction, kept for tracing.
#[derive(Debug, Clone, Copy, PartialEq, Eq, Structural)]
pub enum Operand {
    Absent,
    Byte(u8),
    Word(u16),
}

/// The class of semantic evaluation an instruction needs.
/// `Control` instructions (jumps, returns, break) are carried out by their stepper alone.
#[derive(Debug, Clone, Copy, PartialEq, Eq, Structural)]
pub enum Executor {
    Arithmetic,
    Bit,
    Bitwise,
    Branch,
    Compare,
    Flag,
    IncDecMem,
    IncDecReg,
    Load,
    Pla,
    Plp,
    Push,
    Rotate,
    Shift,
    Store,
    Transfer,
    Nop,
    Control,
}

/// One entry of the instruction table.
#[derive(Debug, Clone, Copy, PartialEq, Eq, Structural)]
pub struct OperationDef {
    pub opcode: u8,
    pub mnemonic: Mnemonic,
    pub address_mode: AddressMode,
    pub executor: Executor,
    /// Length of the encoding in bytes, opcode included.
    pub len: u8,
    /// Cycles taken when no page is crossed and no branch is taken.
    pub cycles: u8,
}

/// The instruction table: mnemonic and address mode of each documented opcode.
pub open spec fn decode_spec(opcode: u8) -> Option<(Mnemonic, AddressMode)> {
    match opcode {
        0x00 => Some((Mnemonic::BRK, AddressMode::Implicit)),
        0x01 => Some((Mnemonic::ORA, AddressMode::IndirectX)),
        0x05 => Some((Mnemonic::ORA, AddressMode::ZeroPage)),
        0x06 => Some((Mnemonic::ASL, AddressMode::ZeroPage)),
        0x08 => Some((Mnemonic::PHP, AddressMode::Implicit)),
        0x09 => Some((Mnemonic::ORA, AddressMode::Immediate)),
        0x0a => Some((Mnemonic::ASL, AddressMode::Accumulator)),
        0x0d => Some((Mnemonic::ORA, AddressMode::Absolute)),
        0x0e => Some((Mnemonic::ASL, AddressMode::Absolute)),
        0x10 => Some((Mnemonic::BPL, AddressMode::Relative)),
        0x11 => Some((Mnemonic::ORA, AddressMode::IndirectY)),
        0x15 => Some((Mnemonic::ORA, AddressMode::ZeroPageX)),
        0x16 => Some((Mnemonic::ASL, AddressMode::ZeroPageX)),
        0x18 => Some((Mnemonic::CLC, AddressMode::Implicit)),
        0x19 => Some((Mnemonic::ORA, AddressMode::AbsoluteY)),
        0x1d => Some((Mnemonic::ORA, AddressMode::AbsoluteX)),
        0x1e => Some((Mnemonic::ASL, AddressMode::AbsoluteX)),
        0x20 => Some((Mnemonic::JSR, AddressMode::Absolute)),
        0x21 => Some((Mnemonic::AND, AddressMode::IndirectX)),
        0x24 => Some((Mnemonic::BIT, AddressMode::ZeroPage)),
        0x25 => Some((Mnemonic::AND, AddressMode::ZeroPage)),
        0x26 => Some((Mnemonic::ROL, AddressMode::ZeroPage)),
        0x28 => Some((Mnemonic::PLP, AddressMode::Implicit)),
        0x29 => Some((Mnemonic::AND, AddressMode::Immediate)),
        0x2a => Some((Mnemonic::ROL, AddressMode::Accumulator)),
        0x2c => Some((Mnemonic::BIT, AddressMode::Absolute)),
        0x2d => Some((Mnemonic::AND, AddressMode::Absolute)),
        0x2e => Some((Mnemonic::ROL, AddressMode::Absolute)),
        0x30 => Some((Mnemonic::BMI, AddressMode::Relative)),
        0x31 => Some((Mnemonic::AND, AddressMode::IndirectY)),
        0x35 => Some((Mnemonic::AND, AddressMode::ZeroPageX)),
        0x36 => Some((Mnemonic::ROL, AddressMode::ZeroPageX)),
        0x38 => Some((Mnemonic::SEC, AddressMode::Implicit)),
        0x39 => Some((Mnemonic::AND, AddressMode::AbsoluteY)),
        0x3d => Some((Mnemonic::AND, AddressMode::AbsoluteX)),
        0x3e => Some((Mnemonic::ROL, AddressMode::AbsoluteX)),
        0x40 => Some((Mnemonic::RTI, AddressMode::Implicit)),
        0x41 => Some((Mnemonic::EOR, AddressMode::IndirectX)),
        0x45 => Some((Mnemonic::EOR, AddressMode::ZeroPage)),
        0x46 => Some((Mnemonic::LSR, AddressMode::ZeroPage)),
        0x48 => Some((Mnemonic::PHA, AddressMode::Implicit)),
        0x49 => Some((Mnemonic::EOR, AddressMode::Immediate)),
        0x4a => Some((Mnemonic::LSR, AddressMode::Accumulator)),
        0x4c => Some((Mnemonic::JMP, AddressMode::Absolute)),
        0x4d => Some((Mnemonic::EOR, AddressMode::Absolute)),
        0x4e => Some((Mnemonic::LSR, AddressMode::Absolute)),
        0x50 => Some((Mnemonic::BVC, AddressMode::Relative)),
        0x51 => Some((Mnemonic::EOR, AddressMode::IndirectY)),
        0x55 => Some((Mnemonic::EOR, AddressMode::ZeroPageX)),
        0x56 => Some((Mnemonic::LSR, AddressMode::ZeroPageX)),
        0x58 => Some((Mnemonic::CLI, AddressMode::Implicit)),
        0x59 => Some((Mnemonic::EOR, AddressMode::AbsoluteY)),
        0x5d => Some((Mnemonic::EOR, AddressMode::AbsoluteX)),
        0x5e => Some((Mnemonic::LSR, AddressMode::AbsoluteX)),
        0x60 => Some((Mnemonic::RTS, AddressMode::Implicit)),
        0x61 => Some((Mnemonic::ADC, AddressMode::IndirectX)),
        0x65 => Some((Mnemonic::ADC, AddressMode::ZeroPage)),
        0x66 => Some((Mnemonic::ROR, AddressMode::ZeroPage)),
        0x68 => Some((Mnemonic::PLA, AddressMode::Implicit)),
        0x69 => Some((Mnemonic::ADC, AddressMode::Immediate)),
        0x6a => Some((Mnemonic::ROR, AddressMode::Accumulator)),
        0x6c => Some((Mnemonic::JMP, AddressMode::Indirect)),
        0x6d => Some((Mnemonic::ADC, AddressMode::Absolute)),
        0x6e => Some((Mnemonic::ROR, AddressMode::Absolute)),
        0x70 => Some((Mnemonic::BVS, AddressMode::Relative)),
        0x71 => Some((Mnemonic::ADC, AddressMode::IndirectY)),
        0x75 => Some((Mnemonic::ADC, AddressMode::ZeroPageX)),
        0x76 => Some((Mnemonic::ROR, AddressMode::ZeroPageX)),
        0x78 => Some((Mnemonic::SEI, AddressMode::Implicit)),
        0x79 => Some((Mnemonic::ADC, AddressMode::AbsoluteY)),
        0x7d => Some((Mnemonic::ADC, AddressMode::AbsoluteX)),
        0x7e => Some((Mnemonic::ROR, AddressMode::AbsoluteX)),
        0x81 => Some((Mnemonic::STA, AddressMode::IndirectX)),
        0x84 => Some((Mnemonic::STY, AddressMode::ZeroPage)),
        0x85 => Some((Mnemonic::STA, AddressMode::ZeroPage)),
        0x86 => Some((Mnemonic::STX, AddressMode::ZeroPage)),
        0x88 => Some((Mnemonic::DEY, AddressMode::Implicit)),
        0x8a => Some((Mnemonic::TXA, AddressMode::Implicit)),
        0x8c => Some((Mnemonic::STY, AddressMode::Absolute)),
        0x8d => Some((Mnemonic::STA, AddressMode::Absolute)),
        0x8e => Some((Mnemonic::STX, AddressMode::Absolute)),
        0x90 => Some((Mnemonic::BCC, AddressMode::Relative)),
        0x91 => Some((Mnemonic::STA, AddressMode::IndirectY)),
        0x94 => Some((Mnemonic::STY, AddressMode::ZeroPageX)),
        0x95 => Some((Mnemonic::STA, AddressMode::ZeroPageX)),
        0x96 => Some((Mnemonic::STX, AddressMode::ZeroPageY)),
        0x98 => Some((Mnemonic::TYA, AddressMode::Implicit)),
        0x99 => Some((Mnemonic::STA, AddressMode::AbsoluteY)),
        0x9a => Some((Mnemonic::TXS, AddressMode::Implicit)),
        0x9d => Some((Mnemonic::STA, AddressMode::AbsoluteX)),
        0xa0 => Some((Mnemonic::LDY, AddressMode::Immediate)),
        0xa1 => Some((Mnemonic::LDA, AddressMode::IndirectX)),
        0xa2 => Some((Mnemonic::LDX, AddressMode::Immediate)),
        0xa4 => Some((Mnemonic::LDY, AddressMode::ZeroPage)),
        0xa5 => Some((Mnemonic::LDA, AddressMode::ZeroPage)),
        0xa6 => Some((Mnemonic::LDX, AddressMode::ZeroPage)),
        0xa8 => Some((Mnemonic::TAY, AddressMode::Implicit)),
        0xa9 => Some((Mnemonic::LDA, AddressMode::Immediate)),
        0xaa => Some((Mnemonic::TAX, AddressMode::Implicit)),
        0xac => Some((Mnemonic::LDY, AddressMode::Absolute)),
        0xad => Some((Mnemonic::LDA, AddressMode::Absolute)),
        0xae => Some((Mnemonic::LDX, AddressMode::Absolute)),
        0xb0 => Some((Mnemonic::BCS, AddressMode::Relative)),
        0xb1 => Some((Mnemonic::LDA, AddressMode::IndirectY)),
        0xb4 => Some((Mnemonic::LDY, AddressMode::ZeroPageX)),
        0xb5 => Some((Mnemonic::LDA, AddressMode::ZeroPageX)),
        0xb6 => Some((Mnemonic::LDX, AddressMode::ZeroPageY)),
        0xb8 => Some((Mnemonic::CLV, AddressMode::Implicit)),
        0xb9 => Some((Mnemonic::LDA, AddressMode::AbsoluteY)),
        0xba => Some((Mnemonic::TSX, AddressMode::Implicit)),
        0xbc => Some((Mnemonic::LDY, AddressMode::AbsoluteX)),
        0xbd => Some((Mnemonic::LDA, AddressMode::AbsoluteX)),
        0xbe => Some((Mnemonic::LDX, AddressMode::AbsoluteY)),
        0xc0 => Some((Mnemonic::CPY, AddressMode::Immediate)),
        0xc1 => Some((Mnemonic::CMP, AddressMode::IndirectX)),
        0xc4 => Some((Mnemonic::CPY, AddressMode::ZeroPage)),
        0xc5 => Some((Mnemonic::CMP, AddressMode::ZeroPage)),
        0xc6 => Some((Mnemonic::DEC, AddressMode::ZeroPage)),
        0xc8 => Some((Mnemonic::INY, AddressMode::Implicit)),
        0xc9 => Some((Mnemonic::CMP, AddressMode::Immediate)),
        0xca => Some((Mnemonic::DEX, AddressMode::Implicit)),
        0xcc => Some((Mnemonic::CPY, AddressMode::Absolute)),
        0xcd => Some((Mnemonic::CMP, AddressMode::Absolute)),
        0xce => Some((Mnemonic::DEC, AddressMode::Absolute)),
        0xd0 => Some((Mnemonic::BNE, AddressMode::Relative)),
        0xd1 => Some((Mnemonic::CMP, AddressMode::IndirectY)),
        0xd5 => Some((Mnemonic::CMP, AddressMode::ZeroPageX)),
        0xd6 => Some((Mnemonic::DEC, AddressMode::ZeroPageX)),
        0xd8 => Some((Mnemonic::CLD, AddressMode::Implicit)),
        0xd9 => Some((Mnemonic::CMP, AddressMode::AbsoluteY)),
        0xdd => Some((Mnemonic::CMP, AddressMode::AbsoluteX)),
        0xde => Some((Mnemonic::DEC, AddressMode::AbsoluteX)),
        0xe0 => Some((Mnemonic::CPX, AddressMode::Immediate)),
        0xe1 => Some((Mnemonic::SBC, AddressMode::IndirectX)),
        0xe4 => Some((Mnemonic::CPX, AddressMode::ZeroPage)),
        0xe5 => Some((Mnemonic::SBC, AddressMode::ZeroPage)),
        0xe6 => Some((Mnemonic::INC, AddressMode::ZeroPage)),
        0xe8 => Some((Mnemonic::INX, AddressMode::Implicit)),
        0xe9 => Some((Mnemonic::SBC, AddressMode::Immediate)),
        0xea => Some((Mnemonic::NOP, AddressMode::Implicit)),
        0xec => Some((Mnemonic::CPX, AddressMode::Absolute)),
        0xed => Some((Mnemonic::SBC, AddressMode::Absolute)),
        0xee => Some((Mnemonic::INC, AddressMode::Absolute)),
        0xf0 => Some((Mnemonic::BEQ, AddressMode::Relative)),
        0xf1 => Some((Mnemonic::SBC, AddressMode::IndirectY)),
        0xf5 => Some((Mnemonic::SBC, AddressMode::ZeroPageX)),
        0xf6 => Some((Mnemonic::INC, AddressMode::ZeroPageX)),
        0xf8 => Some((Mnemonic::SED, AddressMode::Implicit)),
        0xf9 => Some((Mnemonic::SBC, AddressMode::AbsoluteY)),
        0xfd => Some((Mnemonic::SBC, AddressMode::AbsoluteX)),
        0xfe => Some((Mnemonic::INC, AddressMode::AbsoluteX)),
        _ => None,
    }
}

pub open spec fn executor_of(m: Mnemonic) -> Executor {
    match m {
        Mnemonic::ADC => Executor::Arithmetic,
        Mnemonic::AND => Executor::Bitwise,
        Mnemonic::ASL => Executor::Shift,
        Mnemonic::BCC => Executor::Branch,
        Mnemonic::BCS => Executor::Branch,
        Mnemonic::BEQ => Executor::Branch,
        Mnemonic::BIT => Executor::Bit,
        Mnemonic::BMI => Executor::Branch,
        Mnemonic::BNE => Executor::Branch,
        Mnemonic::BPL => Executor::Branch,
        Mnemonic::BRK => Executor::Control,
        Mnemonic::BVC => Executor::Branch,
        Mnemonic::BVS => Executor::Branch,
        Mnemonic::CLC => Executor::Flag,
        Mnemonic::CLD => Executor::Flag,
        Mnemonic::CLI => Executor::Flag,
        Mnemonic::CLV => Executor::Flag,
        Mnemonic::CMP => Executor::Compare,
        Mnemonic::CPX => Executor::Compare,
        Mnemonic::CPY => Executor::Compare,
        Mnemonic::DEC => Executor::IncDecMem,
        Mnemonic::DEX => Executor::IncDecReg,
        Mnemonic::DEY => Executor::IncDecReg,
        Mnemonic::EOR => Executor::Bitwise,
        Mnemonic::INC => Executor::IncDecMem,
        Mnemonic::INX => Executor::IncDecReg,
        Mnemonic::INY => Executor::IncDecReg,
        Mnemonic::JMP => Executor::Control,
        Mnemonic::JSR => Executor::Control,
        Mnemonic::LDA => Executor::Load,
        Mnemonic::LDX => Executor::Load,
        Mnemonic::LDY => Executor::Load,
        Mnemonic::LSR => Executor::Shift,
        Mnemonic::NOP => Executor::Nop,
        Mnemonic::ORA => Executor::Bitwise,
        Mnemonic::PHA => Executor::Push,
        Mnemonic::PHP => Executor::Push,
        Mnemonic::PLA => Executor::Pla,
        Mnemonic::PLP => Executor::Plp,
        Mnemonic::ROL => Executor::Rotate,
        Mnemonic::ROR => Executor::Rotate,
        Mnemonic::RTI => Executor::Control,
        Mnemonic::RTS => Executor::Control,
        Mnemonic::SBC => Executor::Arithmetic,
        Mnemonic::SEC => Executor::Flag,
        Mnemonic::SED => Executor::Flag,
        Mnemonic::SEI => Executor::Flag,
        Mnemonic::STA => Executor::Store,
        Mnemonic::STX => Executor::Store,
        Mnemonic::STY => Executor::Store,
        Mnemonic::TAX => Executor::Transfer,
        Mnemonic::TAY => Executor::Transfer,
        Mnemonic::TSX => Executor::Transfer,
        Mnemonic::TXA => Executor::Transfer,
        Mnemonic::TXS => Executor::Transfer,
        Mnemonic::TYA => Executor::Transfer,
    }
}

/// Number of operand bytes that follow the opcode.
pub open spec fn operand_len_of(mode: AddressMode) -> u8 {
    match mode {
        AddressMode::Implicit | AddressMode::Accumulator => 0,
        AddressMode::Absolute | AddressMode::AbsoluteX | AddressMode::AbsoluteY
        | AddressMode::Indirect => 2,
        _ => 1,
    }
}

pub open spec fn is_rmw(m: Mnemonic) -> bool {
    executor_of(m) == Executor::Shift || executor_of(m) == Executor::Rotate
        || executor_of(m) == Executor::IncDecMem
}

pub open spec fn is_store(m: Mnemonic) -> bool {
    executor_of(m) == Executor::Store
}

/// Base cycle count of an instruction, from the 6502 datasheet.
pub open spec fn cycles_of(m: Mnemonic, mode: AddressMode) -> u8 {
    match mode {
        AddressMode::Implicit | AddressMode::Accumulator | AddressMode::Immediate => match m {
            Mnemonic::PHA | Mnemonic::PHP => 3,
            Mnemonic::PLA | Mnemonic::PLP => 4,
            Mnemonic::RTS | Mnemonic::RTI => 6,
            Mnemonic::BRK => 7,
            _ => 2,
        },
        AddressMode::Relative => 2,
        AddressMode::ZeroPage => if is_rmw(m) { 5 } else { 3 },
        AddressMode::ZeroPageX | AddressMode::ZeroPageY => if is_rmw(m) { 6 } else { 4 },
        AddressMode::Absolute => match m {
            Mnemonic::JMP => 3,
            Mnemonic::JSR => 6,
            _ => if is_rmw(m) { 6 } else { 4 },
        },
        AddressMode::AbsoluteX | AddressMode::AbsoluteY => if is_rmw(m) {
            7
        } else if is_store(m) {
            5
        } else {
            4
        },
        AddressMode::Indirect => 5,
        AddressMode::IndirectX => 6,
        AddressMode::IndirectY => if is_store(m) { 6 } else { 5 },
    }
}

/// The table entry built from a mnemonic and an address mode.
pub open spec fn def_of(opcode: u8, m: Mnemonic, mode: AddressMode) -> OperationDef {
    OperationDef {
        opcode,
        mnemonic: m,
        address_mode: mode,
        executor: executor_of(m),
        len: (operand_len_of(mode) + 1) as u8,
        cycles: cycles_of(m, mode),
    }
}

/// The table entry of an opcode, if the opcode is documented.
pub open spec fn operation_spec(opcode: u8) -> Option<OperationDef> {
    match decode_spec(opcode) {
        Some((m, mode)) => Some(def_of(opcode, m, mode)),
        None => None,
    }
}

/// Looks an opcode up in the instruction table.
pub fn decode(opcode: u8) -> (r: Option<(Mnemonic, AddressMode)>)
    ensures
        r == decode_spec(opcode),
{
    match opcode {
        0x00 => Some((Mnemonic::BRK, AddressMode::Implicit)),
        0x01 => Some((Mnemonic::ORA, AddressMode::IndirectX)),
        0x05 => Some((Mnemonic::ORA, AddressMode::ZeroPage)),
        0x06 => Some((Mnemonic::ASL, AddressMode::ZeroPage)),
        0x08 => Some((Mnemonic::PHP, AddressMode::Implicit)),
        0x09 => Some((Mnemonic::ORA, AddressMode::Immediate)),
        0x0a => Some((Mnemonic::ASL, AddressMode::Accumulator)),
        0x0d => Some((Mnemonic::ORA, AddressMode::Absolute)),
        0x0e => Some((Mnemonic::ASL, AddressMode::Absolute)),
        0x10 => Some((Mnemonic::BPL, AddressMode::Relative)),
        0x11 => Some((Mnemonic::ORA, AddressMode::IndirectY)),
        0x15 => Some((Mnemonic::ORA, AddressMode::ZeroPageX)),
        0x16 => Some((Mnemonic::ASL, AddressMode::ZeroPageX)),
        0x18 => Some((Mnemonic::CLC, AddressMode::Implicit)),
        0x19 => Some((Mnemonic::ORA, AddressMode::AbsoluteY)),
        0x1d => Some((Mnemonic::ORA, AddressMode::AbsoluteX)),
        0x1e => Some((Mnemonic::ASL, AddressMode::AbsoluteX)),
        0x20 => Some((Mnemonic::JSR, AddressMode::Absolute)),
        0x21 => Some((Mnemonic::AND, AddressMode::IndirectX)),
        0x24 => Some((Mnemonic::BIT, AddressMode::ZeroPage)),
        0x25 => Some((Mnemonic::AND, AddressMode::ZeroPage)),
        0x26 => Some((Mnemonic::ROL, AddressMode::ZeroPage)),
        0x28 => Some((Mnemonic::PLP, AddressMode::Implicit)),
        0x29 => Some((Mnemonic::AND, AddressMode::Immediate)),
        0x2a => Some((Mnemonic::ROL, AddressMode::Accumulator)),
        0x2c => Some((Mnemonic::BIT, AddressMode::Absolute)),
        0x2d => Some((Mnemonic::AND, AddressMode::Absolute)),
        0x2e => Some((Mnemonic::ROL, AddressMode::Absolute)),
        0x30 => Some((Mnemonic::BMI, AddressMode::Relative)),
        0x31 => Some((Mnemonic::AND, AddressMode::IndirectY)),
        0x35 => Some((Mnemonic::AND, AddressMode::ZeroPageX)),
        0x36 => Some((Mnemonic::ROL, AddressMode::ZeroPageX)),
        0x38 => Some((Mnemonic::SEC, AddressMode::Implicit)),
        0x39 => Some((Mnemonic::AND, AddressMode::AbsoluteY)),
        0x3d => Some((Mnemonic::AND, AddressMode::AbsoluteX)),
        0x3e => Some((Mnemonic::ROL, AddressMode::AbsoluteX)),
        0x40 => Some((Mnemonic::RTI, AddressMode::Implicit)),
        0x41 => Some((Mnemonic::EOR, AddressMode::IndirectX)),
        0x45 => Some((Mnemonic::EOR, AddressMode::ZeroPage)),
        0x46 => Some((Mnemonic::LSR, AddressMode::ZeroPage)),
        0x48 => Some((Mnemonic::PHA, AddressMode::Implicit)),
        0x49 => Some((Mnemonic::EOR, AddressMode::Immediate)),
        0x4a => Some((Mnemonic::LSR, AddressMode::Accumulator)),
        0x4c => Some((Mnemonic::JMP, AddressMode::Absolute)),
        0x4d => Some((Mnemonic::EOR, AddressMode::Absolute)),
        0x4e => Some((Mnemonic::LSR, AddressMode::Absolute)),
        0x50 => Some((Mnemonic::BVC, AddressMode::Relative)),
        0x51 => Some((Mnemonic::EOR, AddressMode::IndirectY)),
        0x55 => Some((Mnemonic::EOR, AddressMode::ZeroPageX)),
        0x56 => Some((Mnemonic::LSR, AddressMode::ZeroPageX)),
        0x58 => Some((Mnemonic::CLI, AddressMode::Implicit)),
        0x59 => Some((Mnemonic::EOR, AddressMode::AbsoluteY)),
        0x5d => Some((Mnemonic::EOR, AddressMode::AbsoluteX)),
        0x5e => Some((Mnemonic::LSR, AddressMode::AbsoluteX)),
        0x60 => Some((Mnemonic::RTS, AddressMode::Implicit)),
        0x61 => Some((Mnemonic::ADC, AddressMode::IndirectX)),
        0x65 => Some((Mnemonic::ADC, AddressMode::ZeroPage)),
        0x66 => Some((Mnemonic::ROR, AddressMode::ZeroPage)),
        0x68 => Some((Mnemonic::PLA, AddressMode::Implicit)),
        0x69 => Some((Mnemonic::ADC, AddressMode::Immediate)),
        0x6a => Some((Mnemonic::ROR, AddressMode::Accumulator)),
        0x6c => Some((Mnemonic::JMP, AddressMode::Indirect)),
        0x6d => Some((Mnemonic::ADC, AddressMode::Absolute)),
        0x6e => Some((Mnemonic::ROR, AddressMode::Absolute)),
        0x70 => Some((Mnemonic::BVS, AddressMode::Relative)),
        0x71 => Some((Mnemonic::ADC, AddressMode::IndirectY)),
        0x75 => Some((Mnemonic::ADC, AddressMode::ZeroPageX)),
        0x76 => Some((Mnemonic::ROR, AddressMode::ZeroPageX)),
        0x78 => Some((Mnemonic::SEI, AddressMode::Implicit)),
        0x79 => Some((Mnemonic::ADC, AddressMode::AbsoluteY)),
        0x7d => Some((Mnemonic::ADC, AddressMode::AbsoluteX)),
        0x7e => Some((Mnemonic::ROR, AddressMode::AbsoluteX)),
        0x81 => Some((Mnemonic::STA, AddressMode::IndirectX)),
        0x84 => Some((Mnemonic::STY, AddressMode::ZeroPage)),
        0x85 => Some((Mnemonic::STA, AddressMode::ZeroPage)),
        0x86 => Some((Mnemonic::STX, AddressMode::ZeroPage)),
        0x88 => Some((Mnemonic::DEY, AddressMode::Implicit)),
        0x8a => Some((Mnemonic::TXA, AddressMode::Implicit)),
        0x8c => Some((Mnemonic::STY, AddressMode::Absolute)),
        0x8d => Some((Mnemonic::STA, AddressMode::Absolute)),
        0x8e => Some((Mnemonic::STX, AddressMode::Absolute)),
        0x90 => Some((Mnemonic::BCC, AddressMode::Relative)),
        0x91 => Some((Mnemonic::STA, AddressMode::IndirectY)),
        0x94 => Some((Mnemonic::STY, AddressMode::ZeroPageX)),
        0x95 => Some((Mnemonic::STA, AddressMode::ZeroPageX)),
        0x96 => Some((Mnemonic::STX, AddressMode::ZeroPageY)),
        0x98 => Some((Mnemonic::TYA, AddressMode::Implicit)),
        0x99 => Some((Mnemonic::STA, AddressMode::AbsoluteY)),
        0x9a => Some((Mnemonic::TXS, AddressMode::Implicit)),
        0x9d => Some((Mnemonic::STA, AddressMode::AbsoluteX)),
        0xa0 => Some((Mnemonic::LDY, AddressMode::Immediate)),
        0xa1 => Some((Mnemonic::LDA, AddressMode::IndirectX)),
        0xa2 => Some((Mnemonic::LDX, AddressMode::Immediate)),
        0xa4 => Some((Mnemonic::LDY, AddressMode::ZeroPage)),
        0xa5 => Some((Mnemonic::LDA, AddressMode::ZeroPage)),
        0xa6 => Some((Mnemonic::LDX, AddressMode::ZeroPage)),
        0xa8 => Some((Mnemonic::TAY, AddressMode::Implicit)),
        0xa9 => Some((Mnemonic::LDA, AddressMode::Immediate)),
        0xaa => Some((Mnemonic::TAX, AddressMode::Implicit)),
        0xac => Some((Mnemonic::LDY, AddressMode::Absolute)),
        0xad => Some((Mnemonic::LDA, AddressMode::Absolute)),
        0xae => Some((Mnemonic::LDX, AddressMode::Absolute)),
        0xb0 => Some((Mnemonic::BCS, AddressMode::Relative)),
        0xb1 => Some((Mnemonic::LDA, AddressMode::IndirectY)),
        0xb4 => Some((Mnemonic::LDY, AddressMode::ZeroPageX)),
        0xb5 => Some((Mnemonic::LDA, AddressMode::ZeroPageX)),
        0xb6 => Some((Mnemonic::LDX, AddressMode::ZeroPageY)),
        0xb8 => Some((Mnemonic::CLV, AddressMode::Implicit)),
        0xb9 => Some((Mnemonic::LDA, AddressMode::AbsoluteY)),
        0xba => Some((Mnemonic::TSX, AddressMode::Implicit)),
        0xbc => Some((Mnemonic::LDY, AddressMode::AbsoluteX)),
        0xbd => Some((Mnemonic::LDA, AddressMode::AbsoluteX)),
        0xbe => Some((Mnemonic::LDX, AddressMode::AbsoluteY)),
        0xc0 => Some((Mnemonic::CPY, AddressMode::Immediate)),
        0xc1 => Some((Mnemonic::CMP, AddressMode::IndirectX)),
        0xc4 => Some((Mnemonic::CPY, AddressMode::ZeroPage)),
        0xc5 => Some((Mnemonic::CMP, AddressMode::ZeroPage)),
        0xc6 => Some((Mnemonic::DEC, AddressMode::ZeroPage)),
        0xc8 => Some((Mnemonic::INY, AddressMode::Implicit)),
        0xc9 => Some((Mnemonic::CMP, AddressMode::Immediate)),
        0xca => Some((Mnemonic::DEX, AddressMode::Implicit)),
        0xcc => Some((Mnemonic::CPY, AddressMode::Absolute)),
        0xcd => Some((Mnemonic::CMP, AddressMode::Absolute)),
        0xce => Some((Mnemonic::DEC, AddressMode::Absolute)),
        0xd0 => Some((Mnemonic::BNE, AddressMode::Relative)),
        0xd1 => Some((Mnemonic::CMP, AddressMode::IndirectY)),
        0xd5 => Some((Mnemonic::CMP, AddressMode::ZeroPageX)),
        0xd6 => Some((Mnemonic::DEC, AddressMode::ZeroPageX)),
        0xd8 => Some((Mnemonic::CLD, AddressMode::Implicit)),
        0xd9 => Some((Mnemonic::CMP, AddressMode::AbsoluteY)),
        0xdd => Some((Mnemonic::CMP, AddressMode::AbsoluteX)),
        0xde => Some((Mnemonic::DEC, AddressMode::AbsoluteX)),
        0xe0 => Some((Mnemonic::CPX, AddressMode::Immediate)),
        0xe1 => Some((Mnemonic::SBC, AddressMode::IndirectX)),
        0xe4 => Some((Mnemonic::CPX, AddressMode::ZeroPage)),
        0xe5 => Some((Mnemonic::SBC, AddressMode::ZeroPage)),
        0xe6 => Some((Mnemonic::INC, AddressMode::ZeroPage)),
        0xe8 => Some((Mnemonic::INX, AddressMode::Implicit)),
        0xe9 => Some((Mnemonic::SBC, AddressMode::Immediate)),
        0xea => Some((Mnemonic::NOP, AddressMode::Implicit)),
        0xec => Some((Mnemonic::CPX, AddressMode::Absolute)),
        0xed => Some((Mnemonic::SBC, AddressMode::Absolute)),
        0xee => Some((Mnemonic::INC, AddressMode::Absolute)),
        0xf0 => Some((Mnemonic::BEQ, AddressMode::Relative)),
        0xf1 => Some((Mnemonic::SBC, AddressMode::IndirectY)),
        0xf5 => Some((Mnemonic::SBC, AddressMode::ZeroPageX)),
        0xf6 => Some((Mnemonic::INC, AddressMode::ZeroPageX)),
        0xf8 => Some((Mnemonic::SED, AddressMode::Implicit)),
        0xf9 => Some((Mnemonic::SBC, AddressMode::AbsoluteY)),
        0xfd => Some((Mnemonic::SBC, AddressMode::AbsoluteX)),
        0xfe => Some((Mnemonic::INC, AddressMode::AbsoluteX)),
        _ => None,
    }
}

pub fn executor(m: Mnemonic) -> (r: Executor)
    ensures
        r == executor_of(m),
{
    match m {
        Mnemonic::ADC => Executor::Arithmetic,
        Mnemonic::AND => Executor::Bitwise,
        Mnemonic::ASL => Executor::Shift,
        Mnemonic::BCC => Executor::Branch,
        Mnemonic::BCS => Executor::Branch,
        Mnemonic::BEQ => Executor::Branch,
        Mnemonic::BIT => Executor::Bit,
        Mnemonic::BMI => Executor::Branch,
        Mnemonic::BNE => Executor::Branch,
        Mnemonic::BPL => Executor::Branch,
        Mnemonic::BRK => Executor::Control,
        Mnemonic::BVC => Executor::Branch,
        Mnemonic::BVS => Executor::Branch,
        Mnemonic::CLC => Executor::Flag,
        Mnemonic::CLD => Executor::Flag,
        Mnemonic::CLI => Executor::Flag,
        Mnemonic::CLV => Executor::Flag,
        Mnemonic::CMP => Executor::Compare,
        Mnemonic::CPX => Executor::Compare,
        Mnemonic::CPY => Executor::Compare,
        Mnemonic::DEC => Executor::IncDecMem,
        Mnemonic::DEX => Executor::IncDecReg,
        Mnemonic::DEY => Executor::IncDecReg,
        Mnemonic::EOR => Executor::Bitwise,
        Mnemonic::INC => Executor::IncDecMem,
        Mnemonic::INX => Executor::IncDecReg,
        Mnemonic::INY => Executor::IncDecReg,
        Mnemonic::JMP => Executor::Control,
        Mnemonic::JSR => Executor::Control,
        Mnemonic::LDA => Executor::Load,
        Mnemonic::LDX => Executor::Load,
        Mnemonic::LDY => Executor::Load,
        Mnemonic::LSR => Executor::Shift,
        Mnemonic::NOP => Executor::Nop,
        Mnemonic::ORA => Executor::Bitwise,
        Mnemonic::PHA => Executor::Push,
        Mnemonic::PHP => Executor::Push,
        Mnemonic::PLA => Executor::Pla,
        Mnemonic::PLP => Executor::Plp,
        Mnemonic::ROL => Executor::Rotate,
        Mnemonic::ROR => Executor::Rotate,
        Mnemonic::RTI => Executor::Control,
        Mnemonic::RTS => Executor::Control,
        Mnemonic::SBC => Executor::Arithmetic,
        Mnemonic::SEC => Executor::Flag,
        Mnemonic::SED => Executor::Flag,
        Mnemonic::SEI => Executor::Flag,
        Mnemonic::STA => Executor::Store,
        Mnemonic::STX => Executor::Store,
        Mnemonic::STY => Executor::Store,
        Mnemonic::TAX => Executor::Transfer,
        Mnemonic::TAY => Executor::Transfer,
        Mnemonic::TSX => Executor::Transfer,
        Mnemonic::TXA => Executor::Transfer,
        Mnemonic::TXS => Executor::Transfer,
        Mnemonic::TYA => Executor::Transfer,
    }
}

pub fn operand_len(mode: AddressMode) -> (r: u8)
    ensures
        r == operand_len_of(mode),
{
    match mode {
        AddressMode::Implicit | AddressMode::Accumulator => 0,
        AddressMode::Absolute | AddressMode::AbsoluteX | AddressMode::AbsoluteY
        | AddressMode::Indirect => 2,
        _ => 1,
    }
}

pub fn base_cycles(m: Mnemonic, mode: AddressMode) -> (r: u8)
    ensures
        r == cycles_of(m, mode),
{
    let ex = executor(m);
    let rmw = ex == Executor::Shift || ex == Executor::Rotate || ex == Executor::IncDecMem;
    let store = ex == Executor::Store;
    match mode {
        AddressMode::Implicit | AddressMode::Accumulator | AddressMode::Immediate => match m {
            Mnemonic::PHA | Mnemonic::PHP => 3,
            Mnemonic::PLA | Mnemonic::PLP => 4,
            Mnemonic::RTS | Mnemonic::RTI => 6,
            Mnemonic::BRK => 7,
            _ => 2,
        },
        AddressMode::Relative => 2,
        AddressMode::ZeroPage => if rmw { 5 } else { 3 },
        AddressMode::ZeroPageX | AddressMode::ZeroPageY => if rmw { 6 } else { 4 },
        AddressMode::Absolute => match m {
            Mnemonic::JMP => 3,
            Mnemonic::JSR => 6,
            _ => if rmw { 6 } else { 4 },
        },
        AddressMode::AbsoluteX | AddressMode::AbsoluteY => if rmw {
            7
        } else if store {
            5
        } else {
            4
        },
        AddressMode::Indirect => 5,
        AddressMode::IndirectX => 6,
        AddressMode::IndirectY => if store { 6 } else { 5 },
    }
}

impl OperationDef {
    pub fn new(opcode: u8, mnemonic: Mnemonic, address_mode: AddressMode) -> (r: OperationDef)
        ensures
            r == def_of(opcode, mnemonic, address_mode),
    {
        OperationDef {
            opcode,
            mnemonic,
            address_mode,
            executor: executor(mnemonic),
            len: operand_len(address_mode) + 1,
            cycles: base_cycles(mnemonic, address_mode),
        }
    }

    /// Number of operand bytes that follow the opcode.
    pub fn operand_len(&self) -> (r: u8)
        requires
            self.len >= 1,
        ensures
            r == self.len - 1,
    {
        self.len - 1
    }
}

/// The table entry of an opcode; `None` for an undocumented opcode.
pub fn operation(opcode: u8) -> (r: Option<OperationDef>)
    ensures
        r == operation_spec(opcode),
{
    match decode(opcode) {
        Some((m, mode)) => Some(OperationDef::new(opcode, m, mode)),
        None => None,
    }
}

/// The mnemonic of an opcode, if it is documented.
pub fn mnemonic_from_opcode(opcode: u8) -> (r: Option<Mnemonic>)
    ensures
        r == (match decode_spec(opcode) {
            Some((m, _)) => Some(m),
            None => None,
        }),
{
    match decode(opcode) {
        Some((m, _)) => Some(m),
        None => None,
    }
}

} // verus!
