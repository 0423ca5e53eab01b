use vstd::prelude::*;
use crate::memory::{
    Addressable,
    loaded, HM62256BLogic, W24512ALogic, HM62256B, HM62256B_SIZE, W24512A, W24512A_SIZE,
};
use crate::circuit::{Circuit, CircuitBuilder};
use crate::pin::{levels_word, Pin};
use crate::debugger::{DebugMessage, MemCell};
use crate::steppers::CpuBus;
use crate::w65c02::W65C02;

verus! {

/// Clock source: toggles its OUT pin once per half-cycle.
#[derive(Debug)]
pub struct Oscilator {
    pub pin: Pin,
    pub khz: u64,
}

impl Oscilator {
    pub open spec fn wf(&self) -> bool {
        self.pin.drives()
    }

    /// An oscillator of `khz` kilohertz with OUT low.
    pub fn new(khz: u64) -> (r: Oscilator)
        ensures
            r.wf(),
            !r.pin.level,
            r.khz == khz,
    {
        Oscilator { pin: Pin::output("OUT"), khz }
    }

    /// Flips OUT and returns its new level.
    pub fn tick(&mut self) -> (r: bool)
        requires
            old(self).wf(),
        ensures
            final(self).wf(),
            r == !old(self).pin.level,
            final(self).pin.level == r,
    {
        self.pin.toggle();
        self.pin.level
    }
}

/// The wiring of a W65C02 (U1) to a static RAM (U6) clocked by an oscillator (X1):
/// OUT to PHI2, R/W to WE, the first `address_lines` address lines, and the data lines
/// both ways. It is kept as a description of the machine; `step` delivers the bus levels
/// to the chip directly.
fn machine_circuit(address_lines: u8) -> Circuit {
    let mut b = CircuitBuilder::new();
    b.add_component("X1");
    b.add_component("U1");
    b.add_component("U6");
    b.link("X1", "OUT", "U1", "PHI2");
    b.link("U1", "RW", "U6", "WE");
    b.link_range("U1", "A", "U6", "A", std::ops::Range { start: 0, end: address_lines });
    b.link_range("U6", "D", "U1", "D", std::ops::Range { start: 0, end: 8 });
    b.link_range("U1", "D", "U6", "D", std::ops::Range { start: 0, end: 8 });
    b.build()
}

/// Rising clock edges among `n` toggles of a clock starting at `level`.
pub open spec fn rising_edges(level: bool, n: int) -> int {
    if level {
        n / 2
    } else {
        (n + 1) / 2
    }
}

/// Errors reported when a machine is built.
#[derive(Debug, Clone, Copy, PartialEq, Eq, Structural)]
pub enum EmulatorError {
    /// The program does not fit in memory at the address given.
    ProgramTooLarge,
}

/// Ben Eater's breadboard computer: a W65C02 with 32 KiB of RAM. Address line A15 is not
/// connected, so the upper 32 KiB mirror the lower. CS and OE of the RAM are tied low
/// and R/W drives WE.
#[derive(Debug)]
pub struct BenEaterMachine {
    pub circuit: Circuit,
    pub clock: Oscilator,
    pub cpu: W65C02,
    pub ram: HM62256B,
    pub running: bool,
}

impl BenEaterMachine {
    pub open spec fn wf(&self) -> bool {
        &&& self.clock.wf() && self.cpu.wf() && self.ram.wf()
        &&& self.ram.enabled_spec() && !self.ram.pins.oe.level
    }

    pub fn new() -> (r: Result<BenEaterMachine, EmulatorError>)
        ensures
            r.is_ok(),
            r.unwrap().wf(),
    {
        BenEaterMachine::with_program(0x200, &[])
    }

    /// A machine whose RAM holds `data` from `addr` on, with the reset vector pointing at
    /// $0200. The address is taken modulo 32 KiB, as the RAM sees it.
    pub fn with_program(addr: u16, data: &[u8]) -> (r: Result<BenEaterMachine, EmulatorError>)
        ensures
            r.is_ok() <==> (addr % 0x8000) + data@.len() <= HM62256B_SIZE,
            r.is_ok() ==> ({
                let m = r.unwrap();
                let mem0 = Seq::new(HM62256B_SIZE as nat, |i: int| 0u8).update(0x7ffc, 0).update(
                    0x7ffd,
                    2,
                );
                &&& m.wf()
                &&& m.ram.logic.data@ == loaded(mem0, (addr % 0x8000) as int, data@)
                &&& m.cpu.fault.is_none()
                &&& m.running
            }),
    {
        let base = addr % 0x8000;
        if data.len() > HM62256B_SIZE - base as usize {
            return Err(EmulatorError::ProgramTooLarge);
        }
        let mut logic = HM62256BLogic::new();
        logic.write_byte(0xfffc, 0);
        logic.write_byte(0xfffd, 2);
        proof {
            assert(logic.data@ =~= Seq::new(HM62256B_SIZE as nat, |i: int| 0u8).update(0x7ffc, 0).update(0x7ffd, 2));
        }
        logic.load(base, data);
        Ok(BenEaterMachine {
            circuit: machine_circuit(15),
            clock: Oscilator::new(1000),
            cpu: W65C02::new(),
            ram: HM62256B::new(logic),
            running: true,
        })
    }

    /// Advances one half-cycle: the clock toggles, the processor takes its half-cycle on
    /// the new PHI2 level, its R/W, address and data lines reach the RAM, and on a read the
    /// byte the RAM drives reaches the processor's data lines.
    pub fn step(&mut self)
        requires
            old(self).wf(),
        ensures
            final(self).wf(),
            final(self).running == old(self).running,
            final(self).clock.pin.level == !old(self).clock.pin.level,
            final(self).cpu.cycles == if final(self).clock.pin.level {
                old(self).cpu.cycles.wrapping_add(1)
            } else {
                old(self).cpu.cycles
            },
            exists|mid: W65C02|
                #[trigger] old(self).cpu.ticked(final(self).clock.pin.level, mid) && final(self).cpu.state == mid.state && final(self).cpu.stepper == mid.stepper && final(self).cpu.fault == mid.fault && final(self).cpu.bus == (CpuBus {
                    data: final(self).cpu.bus.data,
                    ..mid.bus
                }),
            ({
                let b = final(self).cpu.bus;
                &&& !b.read ==> final(self).ram.logic.data@ == old(self).ram.logic.data@.update(
                    b.addr as int % HM62256B_SIZE as int,
                    b.data,
                )
                &&& b.read ==> final(self).ram.logic.data@ == old(self).ram.logic.data@ && b.data
                    == old(self).ram.logic.data@[b.addr as int % HM62256B_SIZE as int]
            }),
    {
        let level = self.clock.tick();
        self.cpu.on_phi2(level);
        let ghost mid = self.cpu;
        let bus = self.cpu.bus;
        self.ram.bus_cycle(bus.read, bus.addr, bus.data);
        if bus.read {
            match self.ram.driven_data() {
                Some(v) => {
                    self.cpu.bus.data = v;
                },
                None => {},
            }
        } else if !level && self.cpu.debugger.enabled {
            let cell = MemCell { addr: bus.addr, val: bus.data };
            self.cpu.trace.push(DebugMessage::MemCellUpdate(cell));
        }
        proof {
            assert(old(self).cpu.ticked(level, mid));
        }
    }

    /// Resets the processor and runs `half_cycles` half-cycles, or fewer if the processor
    /// faults.
    pub fn start(&mut self, half_cycles: u64)
        requires
            old(self).wf(),
        ensures
            final(self).wf(),
            final(self).cpu.fault.is_some() || final(self).cpu.cycles == rising_edges(
                old(self).clock.pin.level,
                half_cycles as int,
            ),
    {
        self.reset();
        let mut n: u64 = 0;
        while n < half_cycles && self.running && self.cpu.fault.is_none()
            invariant
                self.wf(),
                self.running,
                n <= half_cycles,
                self.clock.pin.level == (old(self).clock.pin.level != (n % 2 == 1)),
                self.cpu.cycles == rising_edges(old(self).clock.pin.level, n as int),
            decreases half_cycles - n,
        {
            self.step();
            n = n + 1;
        }
    }

    pub fn stop(&mut self)
        ensures
            !final(self).running,
            final(self).cpu == old(self).cpu,
            final(self).ram == old(self).ram,
    {
        self.running = false;
    }

    /// Powers the processor up again; memory keeps its contents.
    pub fn reset(&mut self)
        requires
            old(self).wf(),
        ensures
            final(self).wf(),
            final(self).ram == old(self).ram,
            final(self).clock == old(self).clock,
            final(self).cpu.fault.is_none(),
            final(self).cpu.cycles == 0,
            final(self).running,
    {
        self.cpu = W65C02::new();
        self.running = true;
    }
}

/// A simplified Commodore 64: a W65C02 with 64 KiB of RAM and the reset vector at $FCE2.
#[derive(Debug)]
pub struct SimplifiedC64Machine {
    pub circuit: Circuit,
    pub clock: Oscilator,
    pub cpu: W65C02,
    pub ram: W24512A,
    pub running: bool,
}

impl SimplifiedC64Machine {
    pub open spec fn wf(&self) -> bool {
        &&& self.clock.wf() && self.cpu.wf() && self.ram.wf()
        &&& self.ram.enabled_spec() && !self.ram.pins.oe.level
    }

    pub fn new() -> (r: Result<SimplifiedC64Machine, EmulatorError>)
        ensures
            r.is_ok(),
            r.unwrap().wf(),
    {
        SimplifiedC64Machine::with_program_and_debugger(0x200, &[], false)
    }

    /// A machine whose RAM holds `data` from `addr` on and whose reset vector points at
    /// $FCE2; `trace` turns the processor's trace on. CS2 is tied high.
    pub fn with_program_and_debugger(addr: u16, data: &[u8], trace: bool) -> (r: Result<
        SimplifiedC64Machine,
        EmulatorError,
    >)
        ensures
            r.is_ok() <==> addr + data@.len() <= W24512A_SIZE,
            r.is_ok() ==> ({
                let m = r.unwrap();
                let mem0 = Seq::new(W24512A_SIZE as nat, |i: int| 0u8).update(0xfffd, 0xfc).update(
                    0xfffc,
                    0xe2,
                );
                &&& m.wf()
                &&& m.ram.logic.data@ == loaded(mem0, addr as int, data@)
                &&& m.cpu.debugger.enabled == trace
            }),
    {
        if data.len() > W24512A_SIZE - addr as usize {
            return Err(EmulatorError::ProgramTooLarge);
        }
        let mut logic = W24512ALogic::new();
        assert(0xfffdint % 65536 == 0xfffd && 0xfffcint % 65536 == 0xfffc);
        logic.write_byte(0xfffd, 0xfc);
        logic.write_byte(0xfffc, 0xe2);
        proof {
            assert(logic.data@ =~= Seq::new(W24512A_SIZE as nat, |i: int| 0u8).update(0xfffd, 0xfc).update(0xfffc, 0xe2));
        }
        logic.load(addr, data);
        let mut ram = W24512A::new(logic);
        ram.pins.cs2.level = true;
        let mut cpu = W65C02::new();
        cpu.debugger.enabled = trace;
        Ok(
            SimplifiedC64Machine {
                circuit: machine_circuit(16),
                clock: Oscilator::new(1000),
                cpu,
                ram,
                running: true,
            },
        )
    }

    /// Advances one half-cycle: the clock toggles, the processor takes its half-cycle on
    /// the new PHI2 level, its R/W, address and data lines reach the RAM, and on a read the
    /// byte the RAM drives reaches the processor's data lines.
    pub fn step(&mut self)
        requires
            old(self).wf(),
        ensures
            final(self).wf(),
            final(self).running == old(self).running,
            final(self).clock.pin.level == !old(self).clock.pin.level,
            final(self).cpu.cycles == if final(self).clock.pin.level {
                old(self).cpu.cycles.wrapping_add(1)
            } else {
                old(self).cpu.cycles
            },
            exists|mid: W65C02|
                #[trigger] old(self).cpu.ticked(final(self).clock.pin.level, mid) && final(self).cpu.state == mid.state && final(self).cpu.stepper == mid.stepper && final(self).cpu.fault == mid.fault && final(self).cpu.bus == (CpuBus {
                    data: final(self).cpu.bus.data,
                    ..mid.bus
                }),
            ({
                let b = final(self).cpu.bus;
                &&& !b.read ==> final(self).ram.logic.data@ == old(self).ram.logic.data@.update(
                    b.addr as int % W24512A_SIZE as int,
                    b.data,
                )
                &&& b.read ==> final(self).ram.logic.data@ == old(self).ram.logic.data@ && b.data
                    == old(self).ram.logic.data@[b.addr as int % W24512A_SIZE as int]
            }),
    {
        let level = self.clock.tick();
        self.cpu.on_phi2(level);
        let ghost mid = self.cpu;
        let bus = self.cpu.bus;
        self.ram.bus_cycle(bus.read, bus.addr, bus.data);
        if bus.read {
            match self.ram.driven_data() {
                Some(v) => {
                    self.cpu.bus.data = v;
                },
                None => {},
            }
        } else if !level && self.cpu.debugger.enabled {
            let cell = MemCell { addr: bus.addr, val: bus.data };
            self.cpu.trace.push(DebugMessage::MemCellUpdate(cell));
        }
        proof {
            assert(old(self).cpu.ticked(level, mid));
        }
    }

    /// Runs 55 half-cycles from reset, or fewer if the processor faults.
    pub fn start(&mut self)
        requires
            old(self).wf(),
        ensures
            final(self).wf(),
            final(self).cpu.fault.is_some() || final(self).cpu.cycles == rising_edges(
                old(self).clock.pin.level,
                55,
            ),
    {
        self.reset();
        let mut n: u64 = 0;
        while n < 55 && self.running && self.cpu.fault.is_none()
            invariant
                self.wf(),
                self.running,
                n <= 55,
                self.clock.pin.level == (old(self).clock.pin.level != (n % 2 == 1)),
                self.cpu.cycles == rising_edges(old(self).clock.pin.level, n as int),
            decreases 55 - n,
        {
            self.step();
            n = n + 1;
        }
    }

    pub fn stop(&mut self)
        ensures
            !final(self).running,
    {
        self.running = false;
    }

    pub fn reset(&mut self)
        requires
            old(self).wf(),
        ensures
            final(self).wf(),
            final(self).ram == old(self).ram,
            final(self).clock == old(self).clock,
            final(self).cpu.fault.is_none(),
            final(self).cpu.cycles == 0,
            final(self).running,
    {
        let trace = self.cpu.debugger.enabled;
        self.cpu = W65C02::new();
        self.cpu.debugger.enabled = trace;
        self.running = true;
    }
}

} // verus!
