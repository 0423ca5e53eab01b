use vstd::prelude::*;
use crate::debugger::{DebugMessage, DebuggerState, Operation, PinsState};
use crate::opcodes::{operation, operation_spec};
use crate::pin::{Pin, PinDirection};
use crate::state::CpuState;
use crate::steppers::{
    fresh_spec, get_stepper, init_stepper, kind_of, nop_def, read_opcode, step_spec, CpuBus, Stepper,
    StepperKind,
};

verus! {

/// Why the processor stopped.
#[derive(Debug, Clone, Copy, PartialEq, Eq, Structural)]
pub enum CpuFault {
    /// IR holds an opcode that the instruction table does not define.
    UnknownOpcode { opcode: u8, pc: u16 },
    /// The instruction has no stepper (BRK).
    NoStepper { opcode: u8 },
}

/// The W65C02 processor: registers, the active stepper, and its pins.
#[derive(Debug)]
pub struct W65C02 {
    pub state: CpuState,
    pub bus: CpuBus,
    pub stepper: Stepper,
    /// Count of rising PHI2 edges.
    pub cycles: u64,
    pub phi2: Pin,
    pub phi1o: Pin,
    pub phi2o: Pin,
    /// Set when the processor has stopped.
    pub fault: Option<CpuFault>,
    pub debugger: DebuggerState,
    /// Trace records emitted while the debugger is enabled.
    pub trace: Vec<DebugMessage>,
    /// Emit a pins snapshot on every low phase as well.
    pub trace_pins: bool,
}

impl W65C02 {
    pub open spec fn wf(&self) -> bool {
        &&& self.state.wf()
        &&& self.stepper.wf()
        &&& (self.fault.is_none() ==> !self.stepper.finished)
        &&& self.phi1o.drives() && self.phi2o.drives()
    }

    /// A processor at power-up, about to read the reset vector. Tracing is off.
    pub fn new() -> (r: W65C02)
        ensures
            r.wf(),
            r.fault.is_none(),
            r.cycles == 0,
            r.stepper.kind == StepperKind::Init,
            r.state.reg.sp == 0xfa && r.state.reg.p == 0x20,
            r.trace@.len() == 0,
    {
        W65C02 {
            state: CpuState::new(),
            bus: CpuBus::new(),
            stepper: init_stepper(),
            cycles: 0,
            phi2: Pin::input("PHI2"),
            phi1o: Pin::output("PHI1O"),
            phi2o: Pin::output("PHI2O"),
            fault: None,
            debugger: DebuggerState { enabled: false },
            trace: Vec::new(),
            trace_pins: false,
        }
    }

    /// `next` is this processor after one `tick` on phase `phase`. A faulted processor, or
    /// a fresh stepper met on a high phase, waits. Otherwise the stepper takes one
    /// half-cycle (`step_spec`); when it returns, an opcode fetch is followed by the stepper
    /// of the opcode in IR (or a fault for an opcode without one), and anything else by a
    /// new opcode fetch. A completed instruction leaves a trace record while tracing is on.
    pub open spec fn ticked(&self, phase: bool, next: W65C02) -> bool {
        let (ns, ncpu, nbus, r) = step_spec(self.stepper, self.state, self.bus);
        let ir = ncpu.reg.ir;
        &&& next.debugger == self.debugger
        &&& next.trace_pins == self.trace_pins
        &&& (!self.debugger.enabled ==> next.trace@ == self.trace@)
        &&& if self.fault.is_some() || (phase && self.stepper.starting()) {
            &&& next.state == self.state
            &&& next.bus == self.bus
            &&& next.stepper == self.stepper
            &&& next.fault == self.fault
            &&& next.trace@ == self.trace@
        } else {
            &&& next.state == ncpu
            &&& next.bus == nbus
            &&& match r {
                None => next.stepper == ns && next.fault.is_none(),
                Some(res) => {
                    &&& (res.completed && self.debugger.enabled ==> next.trace@.len() > 0
                        && next.trace@.last() == DebugMessage::CpuOperation(
                        Operation { reg: ncpu.reg, opcode: ir, operand: res.operand, cycle: self.cycles },
                    ))
                    &&& if !res.has_opcode {
                        next.stepper == fresh_spec(StepperKind::ReadOpcode, nop_def(), 0)
                            && next.fault.is_none()
                    } else {
                        match operation_spec(ir) {
                            None => next.fault == Some(CpuFault::UnknownOpcode { opcode: ir, pc: ncpu.reg.pc }),
                            Some(op) => match kind_of(op.mnemonic, op.address_mode) {
                                Some(k) => next.stepper == fresh_spec(k, op, 1) && next.fault.is_none(),
                                None => next.fault == Some(CpuFault::NoStepper { opcode: ir }),
                            },
                        }
                    }
                },
            }
        }
    }

    /// The data lines are outputs exactly while R/W is low.
    pub fn data_direction(&self) -> (r: PinDirection)
        ensures
            r == (if self.bus.read {
                PinDirection::Input
            } else {
                PinDirection::Output
            }),
    {
        if self.bus.read {
            PinDirection::Input
        } else {
            PinDirection::Output
        }
    }

    /// The pins packed into one word: A0..A15 in bits 0..15, D0..D7 in bits 16..23,
    /// then R/W, SYNC, PHI2, PHI1O, PHI2O.
    pub fn pins_word(&self) -> (r: u128)
        ensures
            r == self.bus.addr + self.bus.data * 0x1_0000 + (if self.bus.read { 0x100_0000int } else { 0 })
                + (if self.bus.sync { 0x200_0000int } else { 0 }) + (if self.phi2.level { 0x400_0000int } else { 0 })
                + (if self.phi1o.level { 0x800_0000int } else { 0 }) + (if self.phi2o.level {
                0x1000_0000int
            } else {
                0
            }),
    {
        let mut w: u128 = self.bus.addr as u128 + self.bus.data as u128 * 0x1_0000;
        if self.bus.read {
            w = w + 0x100_0000;
        }
        if self.bus.sync {
            w = w + 0x200_0000;
        }
        if self.phi2.level {
            w = w + 0x400_0000;
        }
        if self.phi1o.level {
            w = w + 0x800_0000;
        }
        if self.phi2o.level {
            w = w + 0x1000_0000;
        }
        w
    }

    fn decode_op(&mut self)
        requires
            old(self).state.wf(),
            old(self).stepper.wf(),
            old(self).phi1o.drives() && old(self).phi2o.drives(),
            old(self).fault.is_none(),
        ensures
            final(self).wf(),
            final(self).state == old(self).state,
            final(self).cycles == old(self).cycles,
            final(self).phi1o == old(self).phi1o && final(self).phi2o == old(self).phi2o,
            final(self).fault matches Some(CpuFault::UnknownOpcode { opcode, pc }) ==> opcode
                == old(self).state.reg.ir && pc == old(self).state.reg.pc && operation_spec(opcode).is_none(),
            final(self).fault matches Some(CpuFault::NoStepper { opcode }) ==> opcode
                == old(self).state.reg.ir && operation_spec(opcode).is_some() && kind_of(
                operation_spec(opcode).unwrap().mnemonic,
                operation_spec(opcode).unwrap().address_mode,
            ).is_none(),
            final(self).fault.is_none() ==> ({
                let op = operation_spec(old(self).state.reg.ir).unwrap();
                &&& operation_spec(old(self).state.reg.ir).is_some()
                &&& kind_of(op.mnemonic, op.address_mode).is_some()
                &&& final(self).stepper == fresh_spec(kind_of(op.mnemonic, op.address_mode).unwrap(), op, 1)
            }),
            final(self).bus == old(self).bus,
            final(self).debugger == old(self).debugger,
            final(self).trace == old(self).trace,
            final(self).trace_pins == old(self).trace_pins,
    {
        let ir = self.state.ir();
        match operation(ir) {
            Some(op) => match get_stepper(&op) {
                Some(s) => {
                    self.stepper = s;
                },
                None => {
                    self.fault = Some(CpuFault::NoStepper { opcode: ir });
                },
            },
            None => {
                self.fault = Some(CpuFault::UnknownOpcode { opcode: ir, pc: self.state.pc() });
            },
        }
    }

    /// Runs one half-cycle of the active stepper; `phase` is the new PHI2 level. A stepper
    /// starts on a low phase: a fresh stepper met on a high phase waits one half-cycle.
    pub fn tick(&mut self, phase: bool)
        requires
            old(self).wf(),
        ensures
            old(self).ticked(phase, *final(self)),
            final(self).wf(),
            final(self).cycles == old(self).cycles,
            final(self).phi1o == old(self).phi1o && final(self).phi2o == old(self).phi2o,
            old(self).fault.is_some() ==> final(self).state == old(self).state && final(self).fault
                == old(self).fault,
            old(self).fault.is_none() && phase && !old(self).stepper.half && !old(self).stepper.finished
                && old(self).stepper.cycle == (if old(self).stepper.kind == StepperKind::Init
                || old(self).stepper.kind == StepperKind::ReadOpcode {
                0int
            } else {
                1
            }) ==> final(self).state == old(self).state && final(self).stepper == old(self).stepper,
            final(self).fault matches Some(CpuFault::UnknownOpcode { opcode, pc }) ==> old(self).fault.is_some() || (opcode == final(self).state.reg.ir && pc == final(self).state.reg.pc
                && operation_spec(opcode).is_none()),
            final(self).fault matches Some(CpuFault::NoStepper { opcode }) ==> old(self).fault.is_some()
                || (opcode == final(self).state.reg.ir && operation_spec(opcode).is_some()
                && kind_of(operation_spec(opcode).unwrap().mnemonic, operation_spec(opcode).unwrap().address_mode).is_none()),
    {
        if self.fault.is_some() {
            return;
        }
        if phase && self.stepper.at_start() {
            return;
        }
        if !phase && self.trace_pins && self.debugger.enabled {
            let snapshot = PinsState { pins: self.pins_word(), width: 40, cycle: self.cycles };
            self.trace.push(DebugMessage::PinsState(snapshot));
        }
        let res = self.stepper.step(&mut self.state, &mut self.bus);
        match res {
            None => {},
            Some(r) => {
                if r.completed && self.debugger.enabled {
                    let op = Operation {
                        reg: self.state.reg,
                        opcode: self.state.ir(),
                        operand: r.operand,
                        cycle: self.cycles,
                    };
                    self.trace.push(DebugMessage::CpuOperation(op));
                }
                if r.has_opcode {
                    self.decode_op();
                } else {
                    self.stepper = read_opcode();
                }
            },
        }
    }

    pub fn advance_cycles(&mut self)
        ensures
            final(self).cycles == old(self).cycles.wrapping_add(1),
            final(self).state == old(self).state,
            final(self).stepper == old(self).stepper,
            final(self).fault == old(self).fault,
            final(self).phi1o == old(self).phi1o && final(self).phi2o == old(self).phi2o,
            final(self).bus == old(self).bus,
            final(self).debugger == old(self).debugger,
            final(self).trace == old(self).trace,
            final(self).trace_pins == old(self).trace_pins,
    {
        self.cycles = self.cycles.wrapping_add(1);
    }

    /// PHI2 changed to `level`: echo it on PHI1O and PHI2O, run the stepper, and count a
    /// cycle on a rising edge.
    pub fn on_phi2(&mut self, level: bool)
        requires
            old(self).wf(),
        ensures
            final(self).wf(),
            final(self).phi1o.level == !level,
            final(self).phi2o.level == level,
            final(self).cycles == if level {
                old(self).cycles.wrapping_add(1)
            } else {
                old(self).cycles
            },
            old(self).fault.is_some() ==> final(self).state == old(self).state,
            old(self).ticked(level, *final(self)),
    {
        self.phi2.set_val(level);
        self.phi1o.write(!level);
        self.phi2o.write(level);
        self.tick(level);
        if level {
            self.advance_cycles();
        }
    }
}

} // verus!
