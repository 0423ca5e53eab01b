use vstd::prelude::*;
use crate::alu::{execute_spec, nz, pulled_p};
use crate::memory::ram_step;
use crate::opcodes::Mnemonic;
use crate::state::{bit, lemma_with_bit, with_bit, Registers, BREAK, NEGATIVE, UNUSED, ZERO};
use crate::steppers::word;

verus! {

/// LDA #v; STA addr; LDA #0; LDA addr: the byte stored goes through a RAM write cycle
/// and a read cycle at the same address, and A ends as `v` with Z set exactly when `v` is
/// 0 and N equal to bit 7 of `v`.
pub proof fn lemma_store_load_round_trip(r: Registers, v: u8, mem: Seq<u8>, addr: u16, oe: bool, bus: u16)
    requires
        mem.len() > 0,
    ensures
        ({
            let r1 = execute_spec(r, Mnemonic::LDA, v).0;
            let stored = execute_spec(r1, Mnemonic::STA, 0).1;
            let mem1 = ram_step(mem, true, false, oe, addr, stored as u16).0;
            let r2 = execute_spec(r1, Mnemonic::LDA, 0).0;
            let read = ram_step(mem1, true, true, false, addr, bus).1;
            &&& read == Some(v)
            &&& execute_spec(r2, Mnemonic::LDA, read.unwrap()).0.a == v
            &&& execute_spec(r2, Mnemonic::LDA, read.unwrap()).0.p == nz(r2.p, v)
        }),
{
}

/// N and Z of `nz(p, v)` describe `v`.
pub proof fn lemma_nz_flags(p: u8, v: u8)
    ensures
        bit(nz(p, v), ZERO) == (v == 0),
        bit(nz(p, v), NEGATIVE) == (v >= 128),
{
    lemma_with_bit(with_bit(p, NEGATIVE, v >= 128), ZERO, ZERO, v == 0);
    lemma_with_bit(with_bit(p, NEGATIVE, v >= 128), ZERO, NEGATIVE, v == 0);
    lemma_with_bit(p, NEGATIVE, NEGATIVE, v >= 128);
}

/// PHA; PLA: the byte pushed goes through a RAM write and read cycle at the stack slot,
/// and the pull gives A back, with N and Z set from it; whatever ran in between.
pub proof fn lemma_push_pull_a(r: Registers, between: Registers, mem: Seq<u8>, sp: u8, bus: u16)
    requires
        mem.len() > 0,
    ensures
        ({
            let pushed = execute_spec(r, Mnemonic::PHA, 0).1;
            let mem1 = ram_step(mem, true, false, false, word(sp, 1), pushed as u16).0;
            let pulled = ram_step(mem1, true, true, false, word(sp, 1), bus).1;
            let after = execute_spec(between, Mnemonic::PLA, pulled.unwrap()).0;
            &&& pulled == Some(r.a)
            &&& after.a == r.a
            &&& after.p == nz(between.p, r.a)
        }),
{
}

/// PHP; PLP: every bit of P comes back but bit 4, which keeps the value it had before the
/// pull, and bit 5, which is 1.
pub proof fn lemma_push_pull_p(r: Registers, between: Registers, mem: Seq<u8>, sp: u8, bus: u16)
    requires
        mem.len() > 0,
    ensures
        ({
            let pushed = execute_spec(r, Mnemonic::PHP, 0).1;
            let mem1 = ram_step(mem, true, false, false, word(sp, 1), pushed as u16).0;
            let pulled = ram_step(mem1, true, true, false, word(sp, 1), bus).1;
            let after = execute_spec(between, Mnemonic::PLP, pulled.unwrap()).0;
            &&& pulled == Some(r.p)
            &&& after.p == pulled_p(between.p, r.p)
            &&& forall|j: u8| j < 8 && j != BREAK && j != UNUSED ==> bit(after.p, j) == bit(r.p, j)
            &&& bit(after.p, BREAK) == bit(between.p, BREAK)
            &&& bit(after.p, UNUSED)
        }),
{
    let pushed = execute_spec(r, Mnemonic::PHP, 0).1;
    let mem1 = ram_step(mem, true, false, false, word(sp, 1), pushed as u16).0;
    let pulled = ram_step(mem1, true, true, false, word(sp, 1), bus).1;
    assert(pulled == Some(r.p));
    let b = with_bit(r.p, BREAK, bit(between.p, BREAK));
    assert forall|j: u8| j < 8 && j != BREAK && j != UNUSED implies bit(pulled_p(between.p, r.p), j) == bit(r.p, j) by {
        lemma_with_bit(r.p, BREAK, j, bit(between.p, BREAK));
        lemma_with_bit(b, UNUSED, j, true);
    }
    lemma_with_bit(r.p, BREAK, BREAK, bit(between.p, BREAK));
    lemma_with_bit(b, UNUSED, BREAK, true);
    lemma_with_bit(b, UNUSED, UNUSED, true);
}

/// JSR at `at` pushes the high and then the low byte of `at + 2` (the address of its last
/// byte); RTS pulls them back and adds one. The pair returns to `at + 3`, the byte after
/// the three-byte JSR.
pub proof fn lemma_return_address(at: u16)
    ensures
        ({
            let pushed = at.wrapping_add(2);
            let pch = (pushed / 256) as u8;
            let pcl = (pushed % 256) as u8;
            word(pcl, pch).wrapping_add(1) == at.wrapping_add(3)
        }),
{
}

} // verus!
