use vstd::prelude::*;
use vstd::arithmetic::power2::{lemma2_to64, pow2};
use crate::circuit::decimal;
use crate::pin::{
    addr_pin_name, bit16, data_pin_name, encodes_levels, lemma_bits_unique, levels_word, same_name, Pin,
    PinDirection, Port,
};

verus! {

/// What a static RAM does on one evaluation of its control lines: with the chip
/// enabled and WE low it latches the data lines into the addressed cell; with the chip
/// enabled, WE high and OE low it drives the addressed cell onto the data lines; otherwise
/// it does nothing. Returns the new contents and the byte driven, if any.
pub open spec fn ram_step(
    mem: Seq<u8>,
    enabled: bool,
    we: bool,
    oe: bool,
    addr: u16,
    data: u16,
) -> (Seq<u8>, Option<u8>) {
    let a = addr as int % mem.len() as int;
    if enabled && !we {
        (mem.update(a, (data % 256) as u8), None)
    } else if enabled && !oe {
        (mem, Some(mem[a]))
    } else {
        (mem, None)
    }
}

/// A byte latched from the data lines is read back from the same address: after a
/// write cycle at `addr`, a read cycle at `addr` (chip enabled, WE high, OE low) drives
/// the byte that was written.
pub proof fn lemma_write_then_read(
    mem: Seq<u8>,
    oe: bool,
    addr: u16,
    data: u16,
    other_data: u16,
)
    requires
        mem.len() > 0,
    ensures
        ({
            let written = ram_step(mem, true, false, oe, addr, data).0;
            ram_step(written, true, true, false, addr, other_data).1 == Some((data % 256) as u8)
        }),
{
}

/// A word whose bits 8 to 15 are clear is below 256.
proof fn lemma_byte_port(v: u16)
    requires
        forall|i: int| 8 <= i < 16 ==> !bit16(v, i),
    ensures
        v < 256,
{
    assert(!bit16(v, 8) && !bit16(v, 9) && !bit16(v, 10) && !bit16(v, 11));
    assert(!bit16(v, 12) && !bit16(v, 13) && !bit16(v, 14) && !bit16(v, 15));
    lemma_byte_port_bv(v);
}

proof fn lemma_byte_port_bv(v: u16)
    by (bit_vector)
    requires
        (v >> 8u16) & 1u16 != 1u16,
        (v >> 9u16) & 1u16 != 1u16,
        (v >> 10u16) & 1u16 != 1u16,
        (v >> 11u16) & 1u16 != 1u16,
        (v >> 12u16) & 1u16 != 1u16,
        (v >> 13u16) & 1u16 != 1u16,
        (v >> 14u16) & 1u16 != 1u16,
        (v >> 15u16) & 1u16 != 1u16,
    ensures
        v < 256,
{
}

/// Every data pin of the port is tri-state.
pub open spec fn tri_state_port(p: &Port) -> bool {
    forall|i: int| 0 <= i < p.pins@.len() ==> #[trigger] p.pins@[i].tri_state
}

/// The data pins after a reaction that drives `out` (or lets the lines float as inputs).
pub open spec fn data_after(old_data: Seq<Pin>, new_data: Seq<Pin>, enabled: bool, out: Option<u8>) -> bool {
    &&& new_data.len() == old_data.len()
    &&& forall|i: int|
        0 <= i < old_data.len() ==> {
            let p = old_data[i];
            let q = #[trigger] new_data[i];
            &&& q.name == p.name && q.id == p.id && q.group == p.group && q.index == p.index
            &&& q.tri_state == p.tri_state
            &&& q.enabled == enabled
            &&& q.direction == (if out.is_some() {
                PinDirection::Output
            } else {
                PinDirection::Input
            })
            &&& (out.is_some() ==> q.level == bit16(out.unwrap() as u16, i))
            &&& (out.is_none() ==> q.level == p.level)
        }
}

/// Applies the state table of a static RAM to its address and data lines.
fn ram_react(addr: &Port, data: &mut Port, mem: &mut Vec<u8>, enabled: bool, we: bool, oe: bool)
    requires
        addr.wf(),
        old(data).wf(),
        tri_state_port(old(data)),
        old(mem)@.len() > 0,
        old(mem)@.len() <= 65536,
    ensures
        final(data).wf(),
        tri_state_port(final(data)),
        ({
            let (m, out) = ram_step(
                old(mem)@,
                enabled,
                we,
                oe,
                levels_word(addr.pins@),
                levels_word(old(data).pins@),
            );
            final(mem)@ == m && data_after(old(data).pins@, final(data).pins@, enabled, out)
        }),
{
    let a = addr.read();
    let d = data.read();
    let n = mem.len();
    let idx = (a as usize) % n;
    let readable = enabled && we && !oe;
    let ghost d0 = data.pins@;
    data.set_enable(enabled);
    let ghost d1 = data.pins@;
    let _ = data.set_direction(PinDirection::from_bool(readable));
    let ghost d2 = data.pins@;
    if enabled && !we {
        mem.set(idx, (d % 256) as u8);
    } else if readable {
        let b = mem[idx];
        data.write(b as u16);
        assert(data_after(d0, data.pins@, enabled, Some(b)));
    }
}

/// Package pin number of address line `i` of the HM62256B.
pub open spec fn hm62256b_addr_pin(i: u8) -> u32 {
    match i {
        0 => 10,
        1 => 9,
        2 => 8,
        3 => 7,
        4 => 6,
        5 => 5,
        6 => 4,
        7 => 3,
        8 => 25,
        9 => 24,
        10 => 21,
        11 => 23,
        12 => 2,
        13 => 26,
        _ => 1,
    }
}

/// Package pin number of address line `i` of the W24512A.
pub open spec fn w24512a_addr_pin(i: u8) -> u32 {
    match i {
        0 => 12,
        1 => 11,
        2 => 10,
        3 => 9,
        4 => 8,
        5 => 7,
        6 => 6,
        7 => 5,
        8 => 27,
        9 => 26,
        10 => 23,
        11 => 25,
        12 => 4,
        13 => 28,
        14 => 3,
        _ => 31,
    }
}

fn hm62256b_addr_id(i: u8) -> (r: u32)
    ensures
        r == hm62256b_addr_pin(i),
{
    match i {
        0 => 10,
        1 => 9,
        2 => 8,
        3 => 7,
        4 => 6,
        5 => 5,
        6 => 4,
        7 => 3,
        8 => 25,
        9 => 24,
        10 => 21,
        11 => 23,
        12 => 2,
        13 => 26,
        _ => 1,
    }
}

fn w24512a_addr_id(i: u8) -> (r: u32)
    ensures
        r == w24512a_addr_pin(i),
{
    match i {
        0 => 12,
        1 => 11,
        2 => 10,
        3 => 9,
        4 => 8,
        5 => 7,
        6 => 6,
        7 => 5,
        8 => 27,
        9 => 26,
        10 => 23,
        11 => 25,
        12 => 4,
        13 => 28,
        14 => 3,
        _ => 31,
    }
}

/// Address lines A0.. as input pins of group "A".
fn address_port(width: u8, w24512a: bool) -> (r: Port)
    requires
        width <= 16,
    ensures
        r.wf(),
        r.pins@.len() == width,
        forall|i: int| 0 <= i < width ==> (#[trigger] r.pins@[i]).direction == PinDirection::Input
            && !r.pins@[i].tri_state,
        forall|i: int|
            0 <= i < width ==> #[trigger] r.pins@[i] == (Pin {
                name: r.pins@[i].name,
                id: Some(if w24512a { w24512a_addr_pin(i as u8) } else { hm62256b_addr_pin(i as u8) }),
                group: Some("A"),
                index: i as u8,
                direction: PinDirection::Input,
                tri_state: false,
                enabled: true,
                level: false,
            }) && r.pins@[i].name@ == seq!['A'] + decimal(i as nat),
{
    let mut pins: Vec<Pin> = Vec::new();
    let mut i: u8 = 0;
    while i < width
        invariant
            width <= 16,
            i <= width,
            pins@.len() == i,
            forall|j: int| 0 <= j < i ==> (#[trigger] pins@[j]).direction == PinDirection::Input
                && !pins@[j].tri_state,
            forall|j: int|
                0 <= j < i ==> #[trigger] pins@[j] == (Pin {
                    name: pins@[j].name,
                    id: Some(if w24512a { w24512a_addr_pin(j as u8) } else { hm62256b_addr_pin(j as u8) }),
                    group: Some("A"),
                    index: j as u8,
                    direction: PinDirection::Input,
                    tri_state: false,
                    enabled: true,
                    level: false,
                }) && pins@[j].name@ == seq!['A'] + decimal(j as nat),
        decreases width - i,
    {
        let id = if w24512a { w24512a_addr_id(i) } else { hm62256b_addr_id(i) };
        pins.push(Pin::grouped(addr_pin_name(i), id, "A", i, PinDirection::Input, false));
        i = i + 1;
    }
    Port::from_pins(pins)
}

/// Data lines D0..D7 as tri-state pins of group "D"; `first_id` is the package number
/// of D0, and the ground pin sits between D2 and D3.
fn data_port(first_id: u32) -> (r: Port)
    requires
        first_id < 1000,
    ensures
        r.wf(),
        r.pins@.len() == 8,
        tri_state_port(&r),
        forall|i: int| 0 <= i < 8 ==> (#[trigger] r.pins@[i]).enabled,
        forall|i: int|
            0 <= i < 8 ==> #[trigger] r.pins@[i] == (Pin {
                name: r.pins@[i].name,
                id: Some((if i < 3 { first_id + i } else { first_id + 1 + i }) as u32),
                group: Some("D"),
                index: i as u8,
                direction: PinDirection::Output,
                tri_state: true,
                enabled: true,
                level: false,
            }) && r.pins@[i].name@ == seq!['D'] + decimal(i as nat),
{
    let mut pins: Vec<Pin> = Vec::new();
    let mut i: u8 = 0;
    while i < 8
        invariant
            first_id < 1000,
            i <= 8,
            pins@.len() == i,
            forall|j: int| 0 <= j < i ==> (#[trigger] pins@[j]).tri_state && pins@[j].enabled,
            forall|j: int|
                0 <= j < i ==> #[trigger] pins@[j] == (Pin {
                    name: pins@[j].name,
                    id: Some((if j < 3 { first_id + j } else { first_id + 1 + j }) as u32),
                    group: Some("D"),
                    index: j as u8,
                    direction: PinDirection::Output,
                    tri_state: true,
                    enabled: true,
                    level: false,
                }) && pins@[j].name@ == seq!['D'] + decimal(j as nat),
        decreases 8 - i,
    {
        let id = if i < 3 { first_id + i as u32 } else { first_id + 1 + i as u32 };
        pins.push(Pin::grouped(data_pin_name(i), id, "D", i, PinDirection::Output, true));
        i = i + 1;
    }
    Port::from_pins(pins)
}

fn append_pins(v: &mut Vec<Pin>, port: &Port)
    ensures
        final(v)@ == old(v)@ + port.pins@,
{
    let mut i: usize = 0;
    while i < port.pins.len()
        invariant
            i <= port.pins@.len(),
            v@ == old(v)@ + port.pins@.subrange(0, i as int),
        decreases port.pins@.len() - i,
    {
        v.push(port.pins[i]);
        i = i + 1;
        proof {
            assert(port.pins@.subrange(0, i as int) =~= port.pins@.subrange(0, i - 1) + seq![port.pins@[i - 1]]);
        }
    }
    proof {
        assert(port.pins@.subrange(0, i as int) =~= port.pins@);
    }
}

/// `p` after a linked writer delivered `level` to the pin named `name`: an input pin of
/// that name takes the level, any other pin is untouched.
pub open spec fn delivered(p: Pin, name: Seq<char>, level: bool) -> Pin {
    if p.name@ == name && p.direction == PinDirection::Input {
        Pin { level, ..p }
    } else {
        p
    }
}

pub open spec fn delivered_port(pins: Seq<Pin>, name: Seq<char>, level: bool) -> Seq<Pin> {
    Seq::new(pins.len(), |i: int| delivered(pins[i], name, level))
}

/// The state-table reaction: memory and data pins after evaluating `ram_step` on the
/// given control levels, address pins and data pins.
pub open spec fn reacts(
    mem: Seq<u8>,
    enabled: bool,
    we: bool,
    oe: bool,
    addr: Seq<Pin>,
    data: Seq<Pin>,
    nmem: Seq<u8>,
    ndata: Seq<Pin>,
) -> bool {
    let (m, out) = ram_step(mem, enabled, we, oe, levels_word(addr), levels_word(data));
    nmem == m && data_after(data, ndata, enabled, out)
}

/// Delivers `level` to the pins of `port` named `name`. Returns whether a level changed.
fn deliver_to_port(port: &mut Port, name: &str, level: bool) -> (r: bool)
    requires
        old(port).wf(),
    ensures
        final(port).wf(),
        final(port).pins@ == delivered_port(old(port).pins@, name@, level),
        r == (final(port).pins@ != old(port).pins@),
{
    let mut changed = false;
    let mut i: usize = 0;
    while i < port.pins.len()
        invariant
            port.pins@.len() == old(port).pins@.len(),
            old(port).wf(),
            i <= port.pins@.len(),
            forall|j: int| 0 <= j < i ==> #[trigger] port.pins@[j] == delivered(old(port).pins@[j], name@, level),
            forall|j: int| i <= j < port.pins@.len() ==> port.pins@[j] == old(port).pins@[j],
            changed == exists|j: int| 0 <= j < i && #[trigger] port.pins@[j] != old(port).pins@[j],
        decreases port.pins@.len() - i,
    {
        let mut p = port.pins[i];
        let mut c = false;
        let ghost before = changed;
        let ghost pins0 = port.pins@;
        if same_name(p.name, name) {
            c = p.set_val(level);
            port.pins.set(i, p);
        }
        if c {
            changed = true;
        }
        proof {
            assert(port.pins@[i as int] == delivered(old(port).pins@[i as int], name@, level));
            assert((port.pins@[i as int] != old(port).pins@[i as int]) == c);
            if before {
                let j = choose|j: int| 0 <= j < i && #[trigger] pins0[j] != old(port).pins@[j];
                assert(port.pins@[j] == pins0[j]);
            }
            if c {
                assert(exists|j: int| 0 <= j < i + 1 && #[trigger] port.pins@[j] != old(port).pins@[j]);
            } else {
                assert((exists|j: int| 0 <= j < i + 1 && #[trigger] port.pins@[j] != old(port).pins@[j]) ==> before) by {
                    if exists|j: int| 0 <= j < i + 1 && #[trigger] port.pins@[j] != old(port).pins@[j] {
                        let j = choose|j: int| 0 <= j < i + 1 && #[trigger] port.pins@[j] != old(port).pins@[j];
                        assert(j < i);
                    }
                }
            }
        }
        i = i + 1;
    }
    proof {
        assert(port.pins@ =~= delivered_port(old(port).pins@, name@, level));
        if !changed {
            assert(port.pins@ =~= old(port).pins@);
        } else {
            let j = choose|j: int| 0 <= j < i && #[trigger] port.pins@[j] != old(port).pins@[j];
            assert(port.pins@[j] != old(port).pins@[j]);
        }
    }
    changed
}

/// Levels given bit by bit from a word make up that word, cut to the port's width.
proof fn lemma_low_bits(v: u16, i: u16)
    by (bit_vector)
    requires
        i < 16,
    ensures
        ((v & 0x7fffu16) >> i) & 1u16 == 1u16 <==> (i < 15 && (v >> i) & 1u16 == 1u16),
        ((v & 0xffu16) >> i) & 1u16 == 1u16 <==> (i < 8 && (v >> i) & 1u16 == 1u16),
        v & 0x7fffu16 == v % 32768,
        v & 0xffu16 == v % 256,
{
}

/// The word on pins whose levels are the low `n` bits of `v`.
proof fn lemma_levels_word(pins: Seq<Pin>, v: u16, n: int)
    requires
        n == 8 || n == 15 || n == 16,
        pins.len() == n,
        forall|i: int| 0 <= i < n ==> (#[trigger] pins[i]).level == bit16(v, i),
    ensures
        levels_word(pins) as int == if n == 16 {
            v as int
        } else if n == 15 {
            v as int % 32768
        } else {
            v as int % 256
        },
{
    let w: u16 = if n == 16 {
        v
    } else if n == 15 {
        v & 0x7fffu16
    } else {
        v & 0xffu16
    };
    assert forall|i: int| 0 <= i < 16 implies #[trigger] bit16(w, i) == (i < pins.len() && pins[i].level) by {
        lemma_low_bits(v, i as u16);
    }
    assert(encodes_levels(w, pins));
    let l = levels_word(pins);
    assert(encodes_levels(l, pins));
    lemma_bits_unique(w, l);
    lemma_low_bits(v, 0);
}

/// An input pin that is not tri-state, with its package number.
pub open spec fn input_pin(name: &'static str, id: u32) -> Pin {
    Pin {
        name,
        id: Some(id),
        group: None,
        index: 0,
        direction: PinDirection::Input,
        tri_state: false,
        enabled: true,
        level: false,
    }
}

/// The address pins are A0.. with the package numbers of `addr_pin`, the data pins
/// D0..D7 tri-state outputs from package number `first_data` on (skipping the ground pin
/// after D2).
pub open spec fn bus_pins_laid_out(addr: Seq<Pin>, data: Seq<Pin>, w24512a: bool, first_data: int) -> bool {
    &&& forall|i: int|
        0 <= i < addr.len() ==> (#[trigger] addr[i]).name@ == seq!['A'] + decimal(i as nat) && addr[i].id
            == Some(if w24512a { w24512a_addr_pin(i as u8) } else { hm62256b_addr_pin(i as u8) })
            && addr[i].group == Some("A") && addr[i].index == i
    &&& forall|i: int|
        0 <= i < data.len() ==> (#[trigger] data[i]).name@ == seq!['D'] + decimal(i as nat) && data[i].id
            == Some((if i < 3 { first_data + i } else { first_data + 1 + i }) as u32) && data[i].group
            == Some("D") && data[i].index == i && data[i].direction == PinDirection::Output
}

pub open spec fn control_pin(p: Pin) -> bool {
    p.direction == PinDirection::Input && !p.tri_state
}

/// Pins of the Hitachi HM62256B, a 32 KiB static RAM.
///
/// A0..A14 address inputs, D0..D7 tri-state data lines, and the active-low inputs
/// CS (chip select), WE (write enable) and OE (output enable).
#[derive(Debug)]
pub struct HM62256BPins {
    pub addr: Port,
    pub data: Port,
    pub cs: Pin,
    pub we: Pin,
    pub oe: Pin,
    pub vcc: Pin,
    pub vss: Pin,
}

impl HM62256BPins {

    /// Every pin of the package: address lines, data lines, then the control and
    /// supply pins.
    pub fn pins(&self) -> (r: Vec<Pin>)
        ensures
            r@ == self.addr.pins@ + self.data.pins@ + seq![self.cs, self.we, self.oe, self.vcc, self.vss],
    {
        let mut v: Vec<Pin> = Vec::new();
        append_pins(&mut v, &self.addr);
        append_pins(&mut v, &self.data);
        v.push(self.cs);
        v.push(self.we);
        v.push(self.oe);
        v.push(self.vcc);
        v.push(self.vss);
        proof {
            assert(v@ =~= self.addr.pins@ + self.data.pins@ + seq![self.cs, self.we, self.oe, self.vcc, self.vss]);
        }
        v
    }
    pub open spec fn wf(&self) -> bool {
        &&& self.addr.wf() && self.addr.pins@.len() == 15
        &&& self.data.wf() && self.data.pins@.len() == 8
        &&& tri_state_port(&self.data)
        &&& forall|i: int| 0 <= i < self.addr.pins@.len() ==> control_pin(#[trigger] self.addr.pins@[i])
        &&& control_pin(self.cs) && control_pin(self.we) && control_pin(self.oe)
    }

    pub fn new() -> (r: HM62256BPins)
        ensures
            r.wf(),
            !r.cs.level && !r.we.level && !r.oe.level,
            bus_pins_laid_out(r.addr.pins@, r.data.pins@, false, 11),
            r.cs == input_pin("CS", 20),
            r.we == input_pin("WE", 27),
            r.oe == input_pin("OE", 22),
            r.vcc == input_pin("VCC", 28),
            r.vss == input_pin("VSS", 14),
    {
        HM62256BPins {
            addr: address_port(15, false),
            data: data_port(11),
            cs: Pin::input("CS").with_id(20),
            we: Pin::input("WE").with_id(27),
            oe: Pin::input("OE").with_id(22),
            vcc: Pin::input("VCC").with_id(28),
            vss: Pin::input("VSS").with_id(14),
        }
    }
}

/// Contents of the HM62256B.
#[derive(Debug)]
pub struct HM62256BLogic {
    pub data: Vec<u8>,
}

pub const HM62256B_SIZE: usize = 32768;

pub const W24512A_SIZE: usize = 65536;

impl HM62256BLogic {
    pub open spec fn wf(&self) -> bool {
        self.data@.len() == HM62256B_SIZE
    }

    /// All cells zero.
    pub fn new() -> (r: HM62256BLogic)
        ensures
            r.wf(),
            forall|i: int| 0 <= i < HM62256B_SIZE ==> r.data@[i] == 0,
    {
        HM62256BLogic { data: zeroed(HM62256B_SIZE) }
    }

    /// Copies `bytes` into the cells from `addr` on.
    pub fn load(&mut self, addr: u16, bytes: &[u8])
        requires
            old(self).wf(),
            addr + bytes@.len() <= HM62256B_SIZE,
        ensures
            final(self).wf(),
            final(self).data@ == loaded(old(self).data@, addr as int, bytes@),
    {
        load_into(&mut self.data, addr as usize, bytes);
    }

}

/// A byte-addressed memory.
pub trait Addressable {
    spec fn cells(&self) -> Seq<u8>;

    spec fn well_formed(&self) -> bool;

    /// The cell at `addr`, the address taken modulo the size.
    fn read_byte(&self, addr: u16) -> (r: u8)
        requires
            self.well_formed(),
        ensures
            r == self.cells()[addr as int % self.cells().len() as int];

    fn write_byte(&mut self, addr: u16, value: u8)
        requires
            old(self).well_formed(),
        ensures
            final(self).well_formed(),
            final(self).cells() == old(self).cells().update(
                addr as int % old(self).cells().len() as int,
                value,
            );

    /// Number of address lines: the memory holds two to that power cells.
    fn address_width(&self) -> (r: u16)
        requires
            self.well_formed(),
        ensures
            r <= 16,
            self.cells().len() == pow2(r as nat);
}

/// The little-endian word at `addr`, `addr + 1` (wrapping at $FFFF).
pub fn read_word<T: Addressable>(mem: &T, addr: u16) -> (r: u16)
    requires
        mem.well_formed(),
    ensures
        r == mem.cells()[addr as int % mem.cells().len() as int] + 256 * mem.cells()[addr.wrapping_add(1) as int
            % mem.cells().len() as int],
{
    let lo = mem.read_byte(addr);
    let hi = mem.read_byte(addr.wrapping_add(1));
    hi as u16 * 256 + lo as u16
}

/// The cells from `from` up to, not including, `to`.
pub fn fragment<T: Addressable>(mem: &T, from: u16, to: u16) -> (r: Vec<u8>)
    requires
        mem.well_formed(),
    ensures
        r@.len() == if from <= to { to - from } else { 0 },
        forall|i: int| 0 <= i < r@.len() ==> #[trigger] r@[i] == mem.cells()[(from + i) % mem.cells().len() as int],
{
    let mut v: Vec<u8> = Vec::new();
    let mut a: u16 = from;
    while a < to
        invariant
            mem.well_formed(),
            from <= a || from > to,
            a <= to || from > to,
            from <= to ==> v@.len() == a - from,
            from > to ==> v@.len() == 0 && a == from,
            forall|i: int| 0 <= i < v@.len() ==> #[trigger] v@[i] == mem.cells()[(from + i) % mem.cells().len() as int],
        decreases to - a,
    {
        v.push(mem.read_byte(a));
        a = a + 1;
    }
    v
}

impl Addressable for HM62256BLogic {
    open spec fn cells(&self) -> Seq<u8> {
        self.data@
    }

    open spec fn well_formed(&self) -> bool {
        self.wf()
    }

    fn read_byte(&self, addr: u16) -> (r: u8) {
        self.data[addr as usize % HM62256B_SIZE]
    }

    fn write_byte(&mut self, addr: u16, value: u8) {
        self.data.set(addr as usize % HM62256B_SIZE, value);
    }

    fn address_width(&self) -> (r: u16) {
        proof {
            lemma2_to64();
        }
        15
    }
}

impl Addressable for W24512ALogic {
    open spec fn cells(&self) -> Seq<u8> {
        self.data@
    }

    open spec fn well_formed(&self) -> bool {
        self.wf()
    }

    fn read_byte(&self, addr: u16) -> (r: u8) {
        self.data[addr as usize % W24512A_SIZE]
    }

    fn write_byte(&mut self, addr: u16, value: u8) {
        self.data.set(addr as usize % W24512A_SIZE, value);
    }

    fn address_width(&self) -> (r: u16) {
        proof {
            lemma2_to64();
        }
        16
    }
}

/// `mem` with `bytes` copied in from `addr` on.
pub open spec fn loaded(mem: Seq<u8>, addr: int, bytes: Seq<u8>) -> Seq<u8> {
    Seq::new(
        mem.len(),
        |i: int|
            if addr <= i < addr + bytes.len() {
                bytes[i - addr]
            } else {
                mem[i]
            },
    )
}

fn zeroed(n: usize) -> (r: Vec<u8>)
    ensures
        r@.len() == n,
        forall|i: int| 0 <= i < n ==> r@[i] == 0,
{
    let mut v: Vec<u8> = Vec::new();
    let mut i: usize = 0;
    while i < n
        invariant
            i <= n,
            v@.len() == i,
            forall|j: int| 0 <= j < i ==> v@[j] == 0,
        decreases n - i,
    {
        v.push(0);
        i = i + 1;
    }
    v
}

fn load_into(mem: &mut Vec<u8>, addr: usize, bytes: &[u8])
    requires
        addr + bytes@.len() <= old(mem)@.len(),
    ensures
        final(mem)@ == loaded(old(mem)@, addr as int, bytes@),
{
    let n = mem.len();
    let mut i: usize = 0;
    while i < bytes.len()
        invariant
            n == old(mem)@.len(),
            addr + bytes@.len() <= old(mem)@.len(),
            mem@.len() == old(mem)@.len(),
            i <= bytes@.len(),
            forall|j: int|
                0 <= j < mem@.len() ==> #[trigger] mem@[j] == if addr <= j < addr + i {
                    bytes@[j - addr]
                } else {
                    old(mem)@[j]
                },
        decreases bytes@.len() - i,
    {
        mem.set(addr + i, bytes[i]);
        i = i + 1;
    }
    assert(mem@ =~= loaded(old(mem)@, addr as int, bytes@));
}

/// The HM62256B wired to its pins.
#[derive(Debug)]
pub struct HM62256B {
    pub pins: HM62256BPins,
    pub logic: HM62256BLogic,
}

impl HM62256B {

    /// The byte on the data lines while the chip drives them.
    pub fn driven_data(&self) -> (r: Option<u8>)
        requires
            self.wf(),
        ensures
            r.is_some() == self.pins.data.drives(),
            r.is_some() ==> r.unwrap() as u16 == levels_word(self.pins.data.pins@),
    {
        if self.pins.data.is_driving() {
            let v = self.pins.data.read();
            proof {
                lemma_byte_port(v);
            }
            Some(v as u8)
        } else {
            None
        }
    }
    pub open spec fn wf(&self) -> bool {
        self.pins.wf() && self.logic.wf()
    }

    pub fn new(logic: HM62256BLogic) -> (r: HM62256B)
        requires
            logic.wf(),
        ensures
            r.wf(),
            r.logic == logic,
            !r.pins.cs.level && !r.pins.we.level && !r.pins.oe.level,
    {
        HM62256B { pins: HM62256BPins::new(), logic }
    }

    pub open spec fn enabled_spec(&self) -> bool {
        !self.pins.cs.level
    }

    /// CS is low.
    pub fn is_enabled(&self) -> (r: bool)
        ensures
            r == self.enabled_spec(),
    {
        !self.pins.cs.level
    }

    /// Enabled with WE low.
    pub fn can_write(&self) -> (r: bool)
        ensures
            r == (self.enabled_spec() && !self.pins.we.level),
    {
        self.is_enabled() && !self.pins.we.level
    }

    /// Enabled with WE high and OE low.
    pub fn can_read(&self) -> (r: bool)
        ensures
            r == (self.enabled_spec() && self.pins.we.level && !self.pins.oe.level),
    {
        self.is_enabled() && !self.can_write() && !self.pins.oe.level
    }

    /// Re-evaluates the state table after a pin changed.
    pub fn react(&mut self)
        requires
            old(self).wf(),
        ensures
            final(self).wf(),
            final(self).pins.addr == old(self).pins.addr,
            final(self).pins.cs == old(self).pins.cs,
            final(self).pins.we == old(self).pins.we,
            final(self).pins.oe == old(self).pins.oe,
            ({
                let (m, out) = ram_step(
                    old(self).logic.data@,
                    old(self).enabled_spec(),
                    old(self).pins.we.level,
                    old(self).pins.oe.level,
                    levels_word(old(self).pins.addr.pins@),
                    levels_word(old(self).pins.data.pins@),
                );
                final(self).logic.data@ == m && data_after(
                    old(self).pins.data.pins@,
                    final(self).pins.data.pins@,
                    old(self).enabled_spec(),
                    out,
                )
            }),
    {
        let enabled = self.is_enabled();
        let we = self.pins.we.level;
        let oe = self.pins.oe.level;
        ram_react(&self.pins.addr, &mut self.pins.data, &mut self.logic.data, enabled, we, oe);
    }

    /// One half-cycle of the processor's bus reaching the chip: R/W arrives on WE (low
    /// turns the data pins into inputs), the address on the address inputs and, on a write,
    /// the data on D0..D7; then the state table is evaluated once. A write stores `data` at
    /// the address as the chip sees it; a read drives the stored byte onto the data pins.
    pub fn bus_cycle(&mut self, read: bool, addr: u16, data: u8)
        requires
            old(self).wf(),
        ensures
            final(self).wf(),
            final(self).pins.cs == old(self).pins.cs,
            final(self).pins.oe == old(self).pins.oe,
            final(self).pins.we.level == read,
            old(self).enabled_spec() && !read ==> final(self).logic.data@ == old(self).logic.data@.update(addr as int % HM62256B_SIZE as int, data),
            old(self).enabled_spec() && read && !old(self).pins.oe.level ==> final(self).logic.data@
                == old(self).logic.data@ && final(self).pins.data.drives() && levels_word(
                final(self).pins.data.pins@,
            ) == old(self).logic.data@[addr as int % HM62256B_SIZE as int],
            !old(self).enabled_spec() ==> final(self).logic.data@ == old(self).logic.data@,
    {
        self.pins.we.set_val(read);
        if !read {
            let _ = self.pins.data.set_direction(PinDirection::Input);
        }
        self.pins.addr.set_levels(addr);
        if !read {
            self.pins.data.set_levels(data as u16);
        }
        proof {
            lemma_levels_word(self.pins.addr.pins@, addr, 15);
            if !read {
                lemma_levels_word(self.pins.data.pins@, data as u16, 8);
            }
            assert((addr as int % 32768) % HM62256B_SIZE as int == addr as int % HM62256B_SIZE as int);
        }
        let ghost mem0 = self.logic.data@;
        self.react();
        proof {
            if self.enabled_spec() && read && !self.pins.oe.level {
                let b = mem0[addr as int % HM62256B_SIZE as int];
                lemma_levels_word(self.pins.data.pins@, b as u16, 8);
            }
        }
    }

    /// Delivers `level` to the input pins named `name` and, when a level changed,
    /// re-evaluates the state table on the new levels.
    #[verifier::rlimit(40)]
    pub fn on_pin_state_change(&mut self, name: &str, level: bool)
        requires
            old(self).wf(),
        ensures
            final(self).wf(),
            final(self).pins.cs == delivered(old(self).pins.cs, name@, level),
            final(self).pins.we == delivered(old(self).pins.we, name@, level),
            final(self).pins.oe == delivered(old(self).pins.oe, name@, level),
            final(self).pins.addr.pins@ == delivered_port(old(self).pins.addr.pins@, name@, level),
            ({
                let data = delivered_port(old(self).pins.data.pins@, name@, level);
                let changed = final(self).pins.cs != old(self).pins.cs || final(self).pins.we != old(self).pins.we || final(self).pins.oe != old(self).pins.oe || final(self).pins.addr.pins@ != old(self).pins.addr.pins@ || data != old(self).pins.data.pins@;
                &&& changed ==> reacts(
                    old(self).logic.data@,
                    final(self).enabled_spec(),
                    final(self).pins.we.level,
                    final(self).pins.oe.level,
                    final(self).pins.addr.pins@,
                    data,
                    final(self).logic.data@,
                    final(self).pins.data.pins@,
                )
                &&& !changed ==> final(self).logic.data@ == old(self).logic.data@
                    && final(self).pins.data.pins@ == old(self).pins.data.pins@
            }),
    {
        let c_cs = if same_name(self.pins.cs.name, name) { self.pins.cs.set_val(level) } else { false };
        let c_we = if same_name(self.pins.we.name, name) { self.pins.we.set_val(level) } else { false };
        let c_oe = if same_name(self.pins.oe.name, name) { self.pins.oe.set_val(level) } else { false };
        let a = deliver_to_port(&mut self.pins.addr, name, level);
        let ghost before = self.pins.data.pins@;
        let d = deliver_to_port(&mut self.pins.data, name, level);
        proof {
            assert forall|i: int| 0 <= i < self.pins.data.pins@.len() implies #[trigger] self.pins.data.pins@[i].tri_state by {
                assert(self.pins.data.pins@[i] == delivered(before[i], name@, level));
            }
            assert forall|i: int| 0 <= i < self.pins.addr.pins@.len() implies control_pin(#[trigger] self.pins.addr.pins@[i]) by {
                assert(self.pins.addr.pins@[i] == delivered(old(self).pins.addr.pins@[i], name@, level));
            }
        }
        if c_cs || c_we || c_oe || a || d {
            self.react();
        }
    }
}

/// Pins of the Winbond W24512A, a 64 KiB static RAM.
///
/// A0..A15 address inputs, D0..D7 tri-state data lines, the active-low inputs
/// CS1 (chip select), WE (write enable) and OE (output enable), and the active-high
/// chip select CS2.
#[derive(Debug)]
pub struct W24512APins {
    pub addr: Port,
    pub data: Port,
    pub cs1: Pin,
    pub cs2: Pin,
    pub we: Pin,
    pub oe: Pin,
    pub vcc: Pin,
    pub gnd: Pin,
    pub nc1: Pin,
    pub nc2: Pin,
}

impl W24512APins {

    /// Every pin of the package: address lines, data lines, then the control and
    /// supply pins.
    pub fn pins(&self) -> (r: Vec<Pin>)
        ensures
            r@ == self.addr.pins@ + self.data.pins@ + seq![self.cs1, self.cs2, self.we, self.oe, self.vcc, self.gnd, self.nc1, self.nc2],
    {
        let mut v: Vec<Pin> = Vec::new();
        append_pins(&mut v, &self.addr);
        append_pins(&mut v, &self.data);
        v.push(self.cs1);
        v.push(self.cs2);
        v.push(self.we);
        v.push(self.oe);
        v.push(self.vcc);
        v.push(self.gnd);
        v.push(self.nc1);
        v.push(self.nc2);
        proof {
            assert(v@ =~= self.addr.pins@ + self.data.pins@ + seq![self.cs1, self.cs2, self.we, self.oe, self.vcc, self.gnd, self.nc1, self.nc2]);
        }
        v
    }
    pub open spec fn wf(&self) -> bool {
        &&& self.addr.wf() && self.addr.pins@.len() == 16
        &&& self.data.wf() && self.data.pins@.len() == 8
        &&& tri_state_port(&self.data)
        &&& forall|i: int| 0 <= i < self.addr.pins@.len() ==> control_pin(#[trigger] self.addr.pins@[i])
        &&& control_pin(self.cs1) && control_pin(self.cs2) && control_pin(self.we) && control_pin(self.oe)
    }

    pub fn new() -> (r: W24512APins)
        ensures
            r.wf(),
            !r.cs1.level && !r.cs2.level && !r.we.level && !r.oe.level,
            bus_pins_laid_out(r.addr.pins@, r.data.pins@, true, 13),
            r.cs1 == input_pin("CS1", 22),
            r.cs2 == input_pin("CS2", 30),
            r.we == input_pin("WE", 29),
            r.oe == input_pin("OE", 24),
            r.vcc == input_pin("VCC", 32),
            r.gnd == input_pin("GND", 16),
            r.nc1 == input_pin("NC1", 1),
            r.nc2 == input_pin("NC2", 2),
    {
        W24512APins {
            addr: address_port(16, true),
            data: data_port(13),
            cs1: Pin::input("CS1").with_id(22),
            cs2: Pin::input("CS2").with_id(30),
            we: Pin::input("WE").with_id(29),
            oe: Pin::input("OE").with_id(24),
            vcc: Pin::input("VCC").with_id(32),
            gnd: Pin::input("GND").with_id(16),
            nc1: Pin::input("NC1").with_id(1),
            nc2: Pin::input("NC2").with_id(2),
        }
    }
}

/// Contents of the W24512A.
#[derive(Debug)]
pub struct W24512ALogic {
    pub data: Vec<u8>,
}

impl W24512ALogic {
    pub open spec fn wf(&self) -> bool {
        self.data@.len() == W24512A_SIZE
    }

    /// All cells zero.
    pub fn new() -> (r: W24512ALogic)
        ensures
            r.wf(),
            forall|i: int| 0 <= i < W24512A_SIZE ==> r.data@[i] == 0,
    {
        W24512ALogic { data: zeroed(W24512A_SIZE) }
    }

    /// Copies `bytes` into the cells from `addr` on.
    pub fn load(&mut self, addr: u16, bytes: &[u8])
        requires
            old(self).wf(),
            addr + bytes@.len() <= W24512A_SIZE,
        ensures
            final(self).wf(),
            final(self).data@ == loaded(old(self).data@, addr as int, bytes@),
    {
        load_into(&mut self.data, addr as usize, bytes);
    }

}

/// The W24512A wired to its pins.
#[derive(Debug)]
pub struct W24512A {
    pub pins: W24512APins,
    pub logic: W24512ALogic,
}

impl W24512A {

    /// The byte on the data lines while the chip drives them.
    pub fn driven_data(&self) -> (r: Option<u8>)
        requires
            self.wf(),
        ensures
            r.is_some() == self.pins.data.drives(),
            r.is_some() ==> r.unwrap() as u16 == levels_word(self.pins.data.pins@),
    {
        if self.pins.data.is_driving() {
            let v = self.pins.data.read();
            proof {
                lemma_byte_port(v);
            }
            Some(v as u8)
        } else {
            None
        }
    }
    pub open spec fn wf(&self) -> bool {
        self.pins.wf() && self.logic.wf()
    }

    pub fn new(logic: W24512ALogic) -> (r: W24512A)
        requires
            logic.wf(),
        ensures
            r.wf(),
            r.logic == logic,
            !r.pins.cs1.level && !r.pins.cs2.level && !r.pins.we.level && !r.pins.oe.level,
    {
        W24512A { pins: W24512APins::new(), logic }
    }

    pub open spec fn enabled_spec(&self) -> bool {
        !self.pins.cs1.level && self.pins.cs2.level
    }

    /// CS1 is low and CS2 is high.
    pub fn is_enabled(&self) -> (r: bool)
        ensures
            r == self.enabled_spec(),
    {
        !self.pins.cs1.level && self.pins.cs2.level
    }

    /// Enabled with WE low.
    pub fn can_write(&self) -> (r: bool)
        ensures
            r == (self.enabled_spec() && !self.pins.we.level),
    {
        self.is_enabled() && !self.pins.we.level
    }

    /// Enabled with WE high and OE low.
    pub fn can_read(&self) -> (r: bool)
        ensures
            r == (self.enabled_spec() && self.pins.we.level && !self.pins.oe.level),
    {
        self.is_enabled() && !self.can_write() && !self.pins.oe.level
    }

    /// Re-evaluates the state table after a pin changed.
    pub fn react(&mut self)
        requires
            old(self).wf(),
        ensures
            final(self).wf(),
            final(self).pins.addr == old(self).pins.addr,
            final(self).pins.cs1 == old(self).pins.cs1,
            final(self).pins.cs2 == old(self).pins.cs2,
            final(self).pins.we == old(self).pins.we,
            final(self).pins.oe == old(self).pins.oe,
            ({
                let (m, out) = ram_step(
                    old(self).logic.data@,
                    old(self).enabled_spec(),
                    old(self).pins.we.level,
                    old(self).pins.oe.level,
                    levels_word(old(self).pins.addr.pins@),
                    levels_word(old(self).pins.data.pins@),
                );
                final(self).logic.data@ == m && data_after(
                    old(self).pins.data.pins@,
                    final(self).pins.data.pins@,
                    old(self).enabled_spec(),
                    out,
                )
            }),
    {
        let enabled = self.is_enabled();
        let we = self.pins.we.level;
        let oe = self.pins.oe.level;
        ram_react(&self.pins.addr, &mut self.pins.data, &mut self.logic.data, enabled, we, oe);
    }

    /// One half-cycle of the processor's bus reaching the chip: R/W arrives on WE (low
    /// turns the data pins into inputs), the address on the address inputs and, on a write,
    /// the data on D0..D7; then the state table is evaluated once. A write stores `data` at
    /// the address as the chip sees it; a read drives the stored byte onto the data pins.
    pub fn bus_cycle(&mut self, read: bool, addr: u16, data: u8)
        requires
            old(self).wf(),
        ensures
            final(self).wf(),
            final(self).pins.cs1 == old(self).pins.cs1,
            final(self).pins.cs2 == old(self).pins.cs2,
            final(self).pins.oe == old(self).pins.oe,
            final(self).pins.we.level == read,
            old(self).enabled_spec() && !read ==> final(self).logic.data@ == old(self).logic.data@.update(addr as int % W24512A_SIZE as int, data),
            old(self).enabled_spec() && read && !old(self).pins.oe.level ==> final(self).logic.data@
                == old(self).logic.data@ && final(self).pins.data.drives() && levels_word(
                final(self).pins.data.pins@,
            ) == old(self).logic.data@[addr as int % W24512A_SIZE as int],
            !old(self).enabled_spec() ==> final(self).logic.data@ == old(self).logic.data@,
    {
        self.pins.we.set_val(read);
        if !read {
            let _ = self.pins.data.set_direction(PinDirection::Input);
        }
        self.pins.addr.set_levels(addr);
        if !read {
            self.pins.data.set_levels(data as u16);
        }
        proof {
            lemma_levels_word(self.pins.addr.pins@, addr, 16);
            if !read {
                lemma_levels_word(self.pins.data.pins@, data as u16, 8);
            }
            assert((addr as int % 65536) % W24512A_SIZE as int == addr as int % W24512A_SIZE as int);
        }
        let ghost mem0 = self.logic.data@;
        self.react();
        proof {
            if self.enabled_spec() && read && !self.pins.oe.level {
                let b = mem0[addr as int % W24512A_SIZE as int];
                lemma_levels_word(self.pins.data.pins@, b as u16, 8);
            }
        }
    }

    /// Delivers `level` to the input pins named `name` and, when a level changed,
    /// re-evaluates the state table on the new levels.
    #[verifier::rlimit(100)]
    pub fn on_pin_state_change(&mut self, name: &str, level: bool)
        requires
            old(self).wf(),
        ensures
            final(self).wf(),
            final(self).pins.cs1 == delivered(old(self).pins.cs1, name@, level),
            final(self).pins.cs2 == delivered(old(self).pins.cs2, name@, level),
            final(self).pins.we == delivered(old(self).pins.we, name@, level),
            final(self).pins.oe == delivered(old(self).pins.oe, name@, level),
            final(self).pins.addr.pins@ == delivered_port(old(self).pins.addr.pins@, name@, level),
            ({
                let data = delivered_port(old(self).pins.data.pins@, name@, level);
                let changed = final(self).pins.cs1 != old(self).pins.cs1 || final(self).pins.cs2 != old(self).pins.cs2 || final(self).pins.we != old(self).pins.we || final(self).pins.oe != old(self).pins.oe || final(self).pins.addr.pins@ != old(self).pins.addr.pins@ || data != old(self).pins.data.pins@;
                &&& changed ==> reacts(
                    old(self).logic.data@,
                    final(self).enabled_spec(),
                    final(self).pins.we.level,
                    final(self).pins.oe.level,
                    final(self).pins.addr.pins@,
                    data,
                    final(self).logic.data@,
                    final(self).pins.data.pins@,
                )
                &&& !changed ==> final(self).logic.data@ == old(self).logic.data@
                    && final(self).pins.data.pins@ == old(self).pins.data.pins@
            }),
    {
        let c_cs1 = if same_name(self.pins.cs1.name, name) { self.pins.cs1.set_val(level) } else { false };
        let c_cs2 = if same_name(self.pins.cs2.name, name) { self.pins.cs2.set_val(level) } else { false };
        let c_we = if same_name(self.pins.we.name, name) { self.pins.we.set_val(level) } else { false };
        let c_oe = if same_name(self.pins.oe.name, name) { self.pins.oe.set_val(level) } else { false };
        let a = deliver_to_port(&mut self.pins.addr, name, level);
        let ghost before = self.pins.data.pins@;
        let d = deliver_to_port(&mut self.pins.data, name, level);
        proof {
            assert forall|i: int| 0 <= i < self.pins.data.pins@.len() implies #[trigger] self.pins.data.pins@[i].tri_state by {
                assert(self.pins.data.pins@[i] == delivered(before[i], name@, level));
            }
            assert forall|i: int| 0 <= i < self.pins.addr.pins@.len() implies control_pin(#[trigger] self.pins.addr.pins@[i]) by {
                assert(self.pins.addr.pins@[i] == delivered(old(self).pins.addr.pins@[i], name@, level));
            }
        }
        if c_cs1 || c_cs2 || c_we || c_oe || a || d {
            self.react();
        }
    }
}

} // verus!
