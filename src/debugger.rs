use vstd::prelude::*;
use crate::opcodes::Operand;
use crate::state::Registers;

verus! {

/// Whether a trace sink currently accepts records.
#[derive(Debug, Clone, Copy, PartialEq, Eq)]
pub struct DebuggerState {
    pub enabled: bool,
}

impl DebuggerState {
    /// A new sink accepts records.
    pub fn new() -> (r: DebuggerState)
        ensures
            r.enabled,
    {
        DebuggerState { enabled: true }
    }

    pub fn enabled(&self) -> (r: bool)
        ensures
            r == self.enabled,
    {
        self.enabled
    }

    pub fn set_enabled(&mut self, val: bool)
        ensures
            final(self).enabled == val,
    {
        self.enabled = val;
    }
}

/// A completed instruction: registers after it, its opcode and operand, and the cycle
/// counter when it completed.
#[derive(Debug, Clone, Copy, PartialEq, Eq)]
pub struct Operation {
    pub reg: Registers,
    pub opcode: u8,
    pub operand: Operand,
    pub cycle: u64,
}

/// A packed snapshot of the processor's pins, one bit per pin.
#[derive(Debug, Clone, Copy, PartialEq, Eq)]
pub struct PinsState {
    pub pins: u128,
    pub width: u8,
    pub cycle: u64,
}

/// A memory cell that was written.
#[derive(Debug, Clone, Copy, PartialEq, Eq)]
pub struct MemCell {
    pub addr: u16,
    pub val: u8,
}

/// Records handed to a trace sink.
#[derive(Debug, Clone, Copy, PartialEq, Eq)]
pub enum DebugMessage {
    CpuOperation(Operation),
    PinsState(PinsState),
    MemCellUpdate(MemCell),
}

/// A sink for trace records. Sinks accept or drop records at once; they never block.
pub trait Debugger {
    fn debug(&mut self, msg: DebugMessage);

    fn enable(&mut self);

    fn disable(&mut self);

    fn enabled(&self) -> bool;
}

/// A sink that drops every record and is never enabled.
#[derive(Debug, Clone, Copy, PartialEq, Eq)]
pub struct NullDebugger;

impl NullDebugger {
    pub fn as_rc() -> (r: std::rc::Rc<NullDebugger>)
        ensures
            *r == NullDebugger,
    {
        std::rc::Rc::new(NullDebugger)
    }
}

impl Debugger for NullDebugger {
    fn debug(&mut self, msg: DebugMessage) {
    }

    fn enable(&mut self) {
    }

    fn disable(&mut self) {
    }

    fn enabled(&self) -> bool {
        false
    }
}

/// A sink that mirrors the memory cells reported written, for display by its host.
#[derive(Debug)]
pub struct CliDebugger {
    pub state: DebuggerState,
    pub show_operations: bool,
    pub show_pins_state: bool,
    /// The mirrored 64 KiB address space; cells never reported hold 0.
    pub memory: Vec<u8>,
}

impl CliDebugger {
    pub open spec fn wf(&self) -> bool {
        self.memory@.len() == 65536
    }

    pub fn new(show_operations: bool, show_pins_state: bool) -> (r: CliDebugger)
        ensures
            r.wf(),
            r.state.enabled,
            r.show_operations == show_operations,
            r.show_pins_state == show_pins_state,
            forall|i: int| 0 <= i < 65536 ==> r.memory@[i] == 0,
    {
        let mut memory: Vec<u8> = Vec::new();
        let mut i: usize = 0;
        while i < 65536
            invariant
                i <= 65536,
                memory@.len() == i,
                forall|j: int| 0 <= j < i ==> memory@[j] == 0,
            decreases 65536 - i,
        {
            memory.push(0);
            i = i + 1;
        }
        CliDebugger { state: DebuggerState::new(), show_operations, show_pins_state, memory }
    }

    /// Mirrors `data` into the cells from `addr` on, wrapping at the end of the address
    /// space.
    pub fn init_mem(&mut self, addr: u16, data: &[u8])
        requires
            old(self).wf(),
            data@.len() <= 65536,
        ensures
            final(self).wf(),
            final(self).state == old(self).state,
            forall|i: int|
                0 <= i < 65536 ==> #[trigger] final(self).memory@[i] == if (i - addr) % 65536 < data@.len() {
                    data@[(i - addr) % 65536]
                } else {
                    old(self).memory@[i]
                },
    {
        let mut k: usize = 0;
        while k < data.len()
            invariant
                k <= data@.len(),
                data@.len() <= 65536,
                self.memory@.len() == 65536,
                self.state == old(self).state,
                forall|i: int|
                    0 <= i < 65536 ==> #[trigger] self.memory@[i] == if (i - addr) % 65536 < k {
                        data@[(i - addr) % 65536]
                    } else {
                        old(self).memory@[i]
                    },
            decreases data@.len() - k,
        {
            let a = (addr as usize + k) % 65536;
            self.memory.set(a, data[k]);
            proof {
                assert forall|i: int| 0 <= i < 65536 implies #[trigger] self.memory@[i] == if (i - addr)
                    % 65536 < k + 1 {
                    data@[(i - addr) % 65536]
                } else {
                    old(self).memory@[i]
                } by {
                    assert(((i - addr) % 65536 == k) <==> (i == a));
                }
            }
            k = k + 1;
        }
    }

    /// The mirrored cell at `addr`.
    pub fn cell(&self, addr: u16) -> (r: u8)
        requires
            self.wf(),
        ensures
            r == self.memory@[addr as int],
    {
        self.memory[addr as usize]
    }
}

impl Debugger for CliDebugger {
    /// Mirrors a memory update while enabled; other records are left to the host.
    fn debug(&mut self, msg: DebugMessage) {
        if self.state.enabled && self.memory.len() == 65536 {
            match msg {
                DebugMessage::MemCellUpdate(m) => {
                    self.memory.set(m.addr as usize, m.val);
                },
                _ => {},
            }
        }
    }

    fn enable(&mut self) {
        self.state.set_enabled(true);
    }

    fn disable(&mut self) {
        self.state.set_enabled(false);
    }

    fn enabled(&self) -> bool {
        self.state.enabled
    }
}

} // verus!
