use vstd::prelude::*;

verus! {

/// Value of bit `i` of a byte.
pub open spec fn bit(v: u8, i: u8) -> bool {
    (v >> i) & 1u8 == 1u8
}

/// The byte `p` with bit `i` replaced by `b`.
pub open spec fn with_bit(p: u8, i: u8, b: bool) -> u8 {
    if b {
        p | (1u8 << i)
    } else {
        p & !(1u8 << i)
    }
}

pub const CARRY: u8 = 0;
pub const ZERO: u8 = 1;
pub const INTERRUPT: u8 = 2;
pub const DECIMAL: u8 = 3;
pub const BREAK: u8 = 4;
pub const UNUSED: u8 = 5;
pub const OVERFLOW: u8 = 6;
pub const NEGATIVE: u8 = 7;

pub proof fn lemma_masks()
    by (bit_vector)
    ensures
        1u8 << 0u8 == 0x01u8,
        1u8 << 1u8 == 0x02u8,
        1u8 << 2u8 == 0x04u8,
        1u8 << 3u8 == 0x08u8,
        1u8 << 4u8 == 0x10u8,
        1u8 << 5u8 == 0x20u8,
        1u8 << 6u8 == 0x40u8,
        1u8 << 7u8 == 0x80u8,
{
}

/// Reading bit `i` is the same as testing its mask.
pub proof fn lemma_bit_mask(p: u8, i: u8)
    by (bit_vector)
    requires
        i < 8,
    ensures
        bit(p, i) == (p & (1u8 << i) != 0),
{
}

/// Replacing one bit leaves the other seven as they were.
pub proof fn lemma_with_bit(p: u8, i: u8, j: u8, b: bool)
    by (bit_vector)
    requires
        i < 8,
        j < 8,
    ensures
        bit(with_bit(p, i, b), j) == if i == j {
            b
        } else {
            bit(p, j)
        },
{
}

/// `lemma_with_bit` for every byte and pair of bit positions.
pub proof fn lemma_with_bit_all()
    ensures
        forall|p: u8, i: u8, j: u8, b: bool|
            i < 8 && j < 8 ==> #[trigger] bit(with_bit(p, i, b), j) == if i == j {
                b
            } else {
                bit(p, j)
            },
{
    assert forall|p: u8, i: u8, j: u8, b: bool| i < 8 && j < 8 implies #[trigger] bit(
        with_bit(p, i, b),
        j,
    ) == if i == j {
        b
    } else {
        bit(p, j)
    } by {
        lemma_with_bit(p, i, j, b);
    }
}

/// The register file of the processor.
#[derive(Debug, Clone, Copy, PartialEq, Eq)]
pub struct Registers {
    /// The opcode of the instruction being executed.
    pub ir: u8,
    pub a: u8,
    pub x: u8,
    pub y: u8,
    pub pc: u16,
    pub sp: u8,
    pub p: u8,
}

impl Registers {
    /// Bit 5 of the status register is wired high.
    pub open spec fn wf(&self) -> bool {
        bit(self.p, UNUSED)
    }

    /// Power-up values: all zero, stack pointer at 0xfa, only bit 5 of P set.
    pub fn power_up() -> (r: Registers)
        ensures
            r == (Registers { ir: 0, a: 0, x: 0, y: 0, pc: 0, sp: 0xfa, p: 0x20 }),
            r.wf(),
    {
        proof {
            assert(bit(0x20u8, 5u8)) by (bit_vector);
        }
        Registers { ir: 0, a: 0, x: 0, y: 0, pc: 0, sp: 0xfa, p: 0x20 }
    }
}

/// Registers of the processor together with the accessors the executor uses.
#[derive(Debug, Clone, Copy, PartialEq, Eq)]
pub struct CpuState {
    pub reg: Registers,
}

impl CpuState {
    pub open spec fn wf(&self) -> bool {
        self.reg.wf()
    }

    pub open spec fn flag(&self, i: u8) -> bool {
        bit(self.reg.p, i)
    }

    /// The state after `p` becomes `np`, all else unchanged.
    pub open spec fn with_p(self, np: u8) -> CpuState {
        CpuState { reg: Registers { p: np, ..self.reg } }
    }

    pub fn new() -> (r: CpuState)
        ensures
            r.reg == (Registers { ir: 0, a: 0, x: 0, y: 0, pc: 0, sp: 0xfa, p: 0x20 }),
            r.wf(),
    {
        CpuState { reg: Registers::power_up() }
    }

    pub fn inc_pc(&mut self)
        ensures
            *final(self) == (CpuState {
                reg: Registers { pc: old(self).reg.pc.wrapping_add(1), ..old(self).reg },
            }),
    {
        self.reg.pc = self.reg.pc.wrapping_add(1);
    }

    pub fn a(&self) -> (r: u8)
        ensures
            r == self.reg.a,
    {
        self.reg.a
    }

    pub fn x(&self) -> (r: u8)
        ensures
            r == self.reg.x,
    {
        self.reg.x
    }

    pub fn y(&self) -> (r: u8)
        ensures
            r == self.reg.y,
    {
        self.reg.y
    }

    pub fn p(&self) -> (r: u8)
        ensures
            r == self.reg.p,
    {
        self.reg.p
    }

    pub fn sp(&self) -> (r: u8)
        ensures
            r == self.reg.sp,
    {
        self.reg.sp
    }

    pub fn pc(&self) -> (r: u16)
        ensures
            r == self.reg.pc,
    {
        self.reg.pc
    }

    pub fn pcl(&self) -> (r: u8)
        ensures
            r == self.reg.pc % 256,
    {
        (self.reg.pc % 256) as u8
    }

    pub fn pch(&self) -> (r: u8)
        ensures
            r == self.reg.pc / 256,
    {
        (self.reg.pc / 256) as u8
    }

    pub fn set_pc(&mut self, val: u16)
        ensures
            final(self).reg == (Registers { pc: val, ..old(self).reg }),
    {
        self.reg.pc = val;
    }

    pub fn set_pcl(&mut self, val: u8)
        ensures
            final(self).reg == (Registers {
                pc: (old(self).reg.pc / 256 * 256 + val) as u16,
                ..old(self).reg
            }),
    {
        let hi: u16 = self.reg.pc / 256;
        self.reg.pc = hi * 256 + val as u16;
    }

    pub fn set_pch(&mut self, val: u8)
        ensures
            final(self).reg == (Registers {
                pc: (val * 256 + old(self).reg.pc % 256) as u16,
                ..old(self).reg
            }),
    {
        self.reg.pc = (val as u16) * 256 + self.reg.pc % 256;
    }

    pub fn ir(&self) -> (r: u8)
        ensures
            r == self.reg.ir,
    {
        self.reg.ir
    }

    pub fn set_a(&mut self, val: u8)
        ensures
            final(self).reg == (Registers { a: val, ..old(self).reg }),
    {
        self.reg.a = val;
    }

    pub fn set_x(&mut self, val: u8)
        ensures
            final(self).reg == (Registers { x: val, ..old(self).reg }),
    {
        self.reg.x = val;
    }

    pub fn set_y(&mut self, val: u8)
        ensures
            final(self).reg == (Registers { y: val, ..old(self).reg }),
    {
        self.reg.y = val;
    }

    /// Stores a status byte; bit 5 is forced to 1.
    pub fn set_p(&mut self, val: u8)
        ensures
            final(self).reg == (Registers { p: with_bit(val, UNUSED, true), ..old(self).reg }),
            final(self).wf(),
    {
        proof {
            lemma_masks();
            lemma_with_bit(val, UNUSED, UNUSED, true);
        }
        self.reg.p = val | 0x20;
    }

    pub fn set_sp(&mut self, val: u8)
        ensures
            final(self).reg == (Registers { sp: val, ..old(self).reg }),
    {
        self.reg.sp = val;
    }

    pub fn dec_sp(&mut self)
        ensures
            final(self).reg == (Registers { sp: old(self).reg.sp.wrapping_sub(1), ..old(self).reg }),
    {
        self.reg.sp = self.reg.sp.wrapping_sub(1);
    }

    pub fn inc_sp(&mut self)
        ensures
            final(self).reg == (Registers { sp: old(self).reg.sp.wrapping_add(1), ..old(self).reg }),
    {
        self.reg.sp = self.reg.sp.wrapping_add(1);
    }

    pub fn set_ir(&mut self, val: u8)
        ensures
            final(self).reg == (Registers { ir: val, ..old(self).reg }),
    {
        self.reg.ir = val;
    }

    fn get_flag(&self, i: u8, mask: u8) -> (r: bool)
        requires
            i < 8,
            mask == 1u8 << i,
        ensures
            r == self.flag(i),
    {
        proof {
            lemma_bit_mask(self.reg.p, i);
        }
        self.reg.p & mask != 0
    }

    fn put_flag(&mut self, i: u8, mask: u8, val: bool)
        requires
            i < 8,
            mask == 1u8 << i,
        ensures
            *final(self) == old(self).with_p(with_bit(old(self).reg.p, i, val)),
    {
        if val {
            self.reg.p = self.reg.p | mask;
        } else {
            self.reg.p = self.reg.p & !mask;
        }
    }

    pub fn carry(&self) -> (r: bool)
        ensures
            r == self.flag(CARRY),
    {
        proof { lemma_masks(); }
        self.get_flag(CARRY, 0x01)
    }

    pub fn negative(&self) -> (r: bool)
        ensures
            r == self.flag(NEGATIVE),
    {
        proof { lemma_masks(); }
        self.get_flag(NEGATIVE, 0x80)
    }

    pub fn zero(&self) -> (r: bool)
        ensures
            r == self.flag(ZERO),
    {
        proof { lemma_masks(); }
        self.get_flag(ZERO, 0x02)
    }

    pub fn overflow(&self) -> (r: bool)
        ensures
            r == self.flag(OVERFLOW),
    {
        proof { lemma_masks(); }
        self.get_flag(OVERFLOW, 0x40)
    }

    pub fn interrupt_disable(&self) -> (r: bool)
        ensures
            r == self.flag(INTERRUPT),
    {
        proof { lemma_masks(); }
        self.get_flag(INTERRUPT, 0x04)
    }

    pub fn decimal_mode(&self) -> (r: bool)
        ensures
            r == self.flag(DECIMAL),
    {
        proof { lemma_masks(); }
        self.get_flag(DECIMAL, 0x08)
    }

    pub fn break_command(&self) -> (r: bool)
        ensures
            r == self.flag(BREAK),
    {
        proof { lemma_masks(); }
        self.get_flag(BREAK, 0x10)
    }

    pub fn set_negative(&mut self, val: bool)
        ensures
            *final(self) == old(self).with_p(with_bit(old(self).reg.p, NEGATIVE, val)),
    {
        proof { lemma_masks(); }
        self.put_flag(NEGATIVE, 0x80, val)
    }

    pub fn set_zero(&mut self, val: bool)
        ensures
            *final(self) == old(self).with_p(with_bit(old(self).reg.p, ZERO, val)),
    {
        proof { lemma_masks(); }
        self.put_flag(ZERO, 0x02, val)
    }

    pub fn set_carry(&mut self, val: bool)
        ensures
            *final(self) == old(self).with_p(with_bit(old(self).reg.p, CARRY, val)),
    {
        proof { lemma_masks(); }
        self.put_flag(CARRY, 0x01, val)
    }

    pub fn set_overflow(&mut self, val: bool)
        ensures
            *final(self) == old(self).with_p(with_bit(old(self).reg.p, OVERFLOW, val)),
    {
        proof { lemma_masks(); }
        self.put_flag(OVERFLOW, 0x40, val)
    }

    pub fn set_interrupt_disable(&mut self, val: bool)
        ensures
            *final(self) == old(self).with_p(with_bit(old(self).reg.p, INTERRUPT, val)),
    {
        proof { lemma_masks(); }
        self.put_flag(INTERRUPT, 0x04, val)
    }

    pub fn set_decimal_mode(&mut self, val: bool)
        ensures
            *final(self) == old(self).with_p(with_bit(old(self).reg.p, DECIMAL, val)),
    {
        proof { lemma_masks(); }
        self.put_flag(DECIMAL, 0x08, val)
    }

    pub fn set_break_command(&mut self, val: bool)
        ensures
            *final(self) == old(self).with_p(with_bit(old(self).reg.p, BREAK, val)),
    {
        proof { lemma_masks(); }
        self.put_flag(BREAK, 0x10, val)
    }

    pub fn regs(&self) -> (r: &Registers)
        ensures
            *r == self.reg,
    {
        &self.reg
    }
}

} // verus!
