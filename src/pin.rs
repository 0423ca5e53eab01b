use vstd::prelude::*;
use vstd::string::StrSliceExecFns;
use crate::circuit::{decimal, digit_char};

verus! {

#[derive(Debug, Clone, Copy, PartialEq, Eq, Structural)]
pub enum PinDirection {
    Input,
    Output,
}

/// Misuse of the pin interface.
#[derive(Debug, Clone, Copy, PartialEq, Eq, Structural)]
pub enum PinError {
    /// A pin that is not tri-state was reconfigured.
    DirectionMismatch,
    /// A pin that does not drive (an input, or disconnected) was written in strict mode.
    NotDrivable,
}

impl PinDirection {
    /// `true` stands for Output, `false` for Input.
    pub fn from_bool(output: bool) -> (r: PinDirection)
        ensures
            r == (if output {
                PinDirection::Output
            } else {
                PinDirection::Input
            }),
    {
        if output {
            PinDirection::Output
        } else {
            PinDirection::Input
        }
    }
}

/// A single-bit wire endpoint.
#[derive(Debug, Clone, Copy, PartialEq, Eq)]
pub struct Pin {
    pub name: &'static str,
    /// Package pin number.
    pub id: Option<u32>,
    /// Name of the group (port) the pin belongs to, and its index there.
    pub group: Option<&'static str>,
    pub index: u8,
    pub direction: PinDirection,
    /// The pin can switch direction and be disconnected (high impedance).
    pub tri_state: bool,
    /// A disabled pin is high impedance: it neither drives nor propagates.
    pub enabled: bool,
    pub level: bool,
}

impl Pin {
    /// The pin drives its level onto the wires linked to it.
    pub open spec fn drives(&self) -> bool {
        self.direction == PinDirection::Output && self.enabled
    }

    pub fn new(name: &'static str, direction: PinDirection) -> (r: Pin)
        ensures
            r.name == name,
            r.direction == direction,
            r.id.is_none() && r.group.is_none() && r.index == 0,
            !r.tri_state && r.enabled && !r.level,
    {
        Pin {
            name,
            id: None,
            group: None,
            index: 0,
            direction,
            tri_state: false,
            enabled: true,
            level: false,
        }
    }

    pub fn input(name: &'static str) -> (r: Pin)
        ensures
            r.name == name,
            r.direction == PinDirection::Input,
            r.id.is_none() && r.group.is_none() && r.index == 0,
            !r.tri_state && r.enabled && !r.level,
    {
        Pin::new(name, PinDirection::Input)
    }

    pub fn output(name: &'static str) -> (r: Pin)
        ensures
            r.name == name,
            r.direction == PinDirection::Output,
            r.id.is_none() && r.group.is_none() && r.index == 0,
            !r.tri_state && r.enabled && !r.level,
    {
        Pin::new(name, PinDirection::Output)
    }

    /// A tri-state pin of a group, with its package number.
    pub fn grouped(
        name: &'static str,
        id: u32,
        group: &'static str,
        index: u8,
        direction: PinDirection,
        tri_state: bool,
    ) -> (r: Pin)
        ensures
            r.name == name,
            r.id == Some(id),
            r.group == Some(group),
            r.index == index,
            r.direction == direction,
            r.tri_state == tri_state && r.enabled && !r.level,
    {
        Pin {
            name,
            id: Some(id),
            group: Some(group),
            index,
            direction,
            tri_state,
            enabled: true,
            level: false,
        }
    }

    /// The pin with its package number.
    pub fn with_id(self, id: u32) -> (r: Pin)
        ensures
            r == (Pin { id: Some(id), ..self }),
    {
        Pin { id: Some(id), ..self }
    }

    pub fn read(&self) -> (r: bool)
        ensures
            r == self.level,
    {
        self.level
    }

    pub fn state(&self) -> (r: bool)
        ensures
            r == self.level,
    {
        self.level
    }

    pub fn val(&self) -> (r: u8)
        ensures
            r == (if self.level {
                1u8
            } else {
                0u8
            }),
    {
        if self.level {
            1
        } else {
            0
        }
    }

    pub fn direction(&self) -> (r: PinDirection)
        ensures
            r == self.direction,
    {
        self.direction
    }

    pub fn is_output(&self) -> (r: bool)
        ensures
            r == (self.direction == PinDirection::Output),
    {
        self.direction == PinDirection::Output
    }

    pub fn name(&self) -> (r: &'static str)
        ensures
            r == self.name,
    {
        self.name
    }

    /// Drives `val` onto the pin. Only an enabled output pin takes it; on any other pin
    /// the write is silently discarded. Returns whether the level changed, that is
    /// whether linked readers are to be notified.
    pub fn write(&mut self, val: bool) -> (r: bool)
        ensures
            old(self).drives() ==> *final(self) == (Pin { level: val, ..*old(self) }),
            !old(self).drives() ==> *final(self) == *old(self),
            r == (old(self).drives() && old(self).level != val),
    {
        if self.direction == PinDirection::Output && self.enabled {
            let changed = self.level != val;
            self.level = val;
            changed
        } else {
            false
        }
    }

    /// Strict form of `write`: refuses a pin that does not drive.
    pub fn write_strict(&mut self, val: bool) -> (r: Result<(), PinError>)
        ensures
            old(self).drives() ==> r.is_ok() && *final(self) == (Pin { level: val, ..*old(self) }),
            !old(self).drives() ==> r == Err::<(), PinError>(PinError::NotDrivable) && *final(self)
                == *old(self),
    {
        if self.direction == PinDirection::Output && self.enabled {
            self.level = val;
            Ok(())
        } else {
            Err(PinError::NotDrivable)
        }
    }

    /// Latches a level delivered by a linked writer. Output pins keep their own level.
    /// Returns whether the level changed.
    pub fn set_val(&mut self, val: bool) -> (r: bool)
        ensures
            old(self).direction == PinDirection::Input ==> *final(self) == (Pin {
                level: val,
                ..*old(self)
            }),
            old(self).direction == PinDirection::Output ==> *final(self) == *old(self),
            r == (old(self).direction == PinDirection::Input && old(self).level != val),
    {
        if self.direction == PinDirection::Input {
            let changed = self.level != val;
            self.level = val;
            changed
        } else {
            false
        }
    }

    /// Flips the level of an enabled output pin.
    pub fn toggle(&mut self) -> (r: bool)
        ensures
            old(self).drives() ==> *final(self) == (Pin { level: !old(self).level, ..*old(self) }),
            !old(self).drives() ==> *final(self) == *old(self),
            r == old(self).drives(),
    {
        let v = !self.level;
        self.write(v)
    }

    pub fn set_direction(&mut self, d: PinDirection) -> (r: Result<(), PinError>)
        ensures
            old(self).tri_state ==> r.is_ok() && *final(self) == (Pin {
                direction: d,
                ..*old(self)
            }),
            !old(self).tri_state ==> r == Err::<(), PinError>(PinError::DirectionMismatch)
                && *final(self) == *old(self),
    {
        if self.tri_state {
            self.direction = d;
            Ok(())
        } else {
            Err(PinError::DirectionMismatch)
        }
    }

    pub fn set_enable(&mut self, enabled: bool) -> (r: Result<(), PinError>)
        ensures
            old(self).tri_state ==> r.is_ok() && *final(self) == (Pin { enabled, ..*old(self) }),
            !old(self).tri_state ==> r == Err::<(), PinError>(PinError::DirectionMismatch)
                && *final(self) == *old(self),
    {
        if self.tri_state {
            self.enabled = enabled;
            Ok(())
        } else {
            Err(PinError::DirectionMismatch)
        }
    }
}

/// Compares two names character by character.
pub fn same_name(a: &str, b: &str) -> (r: bool)
    ensures
        r == (a@ == b@),
{
    let n = a.unicode_len();
    if n != b.unicode_len() {
        return false;
    }
    let mut i: usize = 0;
    while i < n
        invariant
            n == a@.len(),
            n == b@.len(),
            i <= n,
            forall|j: int| 0 <= j < i ==> a@[j] == b@[j],
        decreases n - i,
    {
        if a.get_char(i) != b.get_char(i) {
            return false;
        }
        i = i + 1;
    }
    proof {
        assert(a@ =~= b@);
    }
    true
}

/// Name of address line `i`: "A" and its decimal index.
pub fn addr_pin_name(i: u8) -> (r: &'static str)
    requires
        i < 16,
    ensures
        r@ == seq!['A'] + decimal(i as nat),
{
    proof {
        if i >= 10 {
            assert(decimal(i as nat) == decimal((i / 10) as nat) + seq![digit_char((i % 10) as nat)]);
            assert(decimal((i / 10) as nat) == seq![digit_char((i / 10) as nat)]);
        }
    }
    match i {
        0 => {
            proof {
                reveal_strlit("A0");
            }
            "A0"
        },
        1 => {
            proof {
                reveal_strlit("A1");
            }
            "A1"
        },
        2 => {
            proof {
                reveal_strlit("A2");
            }
            "A2"
        },
        3 => {
            proof {
                reveal_strlit("A3");
            }
            "A3"
        },
        4 => {
            proof {
                reveal_strlit("A4");
            }
            "A4"
        },
        5 => {
            proof {
                reveal_strlit("A5");
            }
            "A5"
        },
        6 => {
            proof {
                reveal_strlit("A6");
            }
            "A6"
        },
        7 => {
            proof {
                reveal_strlit("A7");
            }
            "A7"
        },
        8 => {
            proof {
                reveal_strlit("A8");
            }
            "A8"
        },
        9 => {
            proof {
                reveal_strlit("A9");
            }
            "A9"
        },
        10 => {
            proof {
                reveal_strlit("A10");
            }
            "A10"
        },
        11 => {
            proof {
                reveal_strlit("A11");
            }
            "A11"
        },
        12 => {
            proof {
                reveal_strlit("A12");
            }
            "A12"
        },
        13 => {
            proof {
                reveal_strlit("A13");
            }
            "A13"
        },
        14 => {
            proof {
                reveal_strlit("A14");
            }
            "A14"
        },
        _ => {
            proof {
                reveal_strlit("A15");
            }
            "A15"
        },
    }
}

/// Name of data line `i`: "D" and its index.
pub fn data_pin_name(i: u8) -> (r: &'static str)
    requires
        i < 8,
    ensures
        r@ == seq!['D'] + decimal(i as nat),
{
    match i {
        0 => {
            proof {
                reveal_strlit("D0");
            }
            "D0"
        },
        1 => {
            proof {
                reveal_strlit("D1");
            }
            "D1"
        },
        2 => {
            proof {
                reveal_strlit("D2");
            }
            "D2"
        },
        3 => {
            proof {
                reveal_strlit("D3");
            }
            "D3"
        },
        4 => {
            proof {
                reveal_strlit("D4");
            }
            "D4"
        },
        5 => {
            proof {
                reveal_strlit("D5");
            }
            "D5"
        },
        6 => {
            proof {
                reveal_strlit("D6");
            }
            "D6"
        },
        _ => {
            proof {
                reveal_strlit("D7");
            }
            "D7"
        },
    }
}

/// Bit `i` of a word.
pub open spec fn bit16(v: u16, i: int) -> bool {
    (v >> (i as u16)) & 1u16 == 1u16
}

proof fn lemma_or_bit(acc: u16, i: u16, j: u16)
    by (bit_vector)
    requires
        i < 16,
        j < 16,
    ensures
        ((acc | (1u16 << i)) >> j) & 1u16 == 1u16 <==> (j == i || (acc >> j) & 1u16 == 1u16),
{
}

proof fn lemma_zero_bits(j: u16)
    by (bit_vector)
    requires
        j < 16,
    ensures
        (0u16 >> j) & 1u16 != 1u16,
{
}

/// Two words with the same sixteen bits are equal.
pub proof fn lemma_bits_unique(a: u16, b: u16)
    requires
        forall|i: int| 0 <= i < 16 ==> bit16(a, i) == bit16(b, i),
    ensures
        a == b,
{
    assert(bit16(a, 0) == bit16(b, 0));
    assert(bit16(a, 1) == bit16(b, 1));
    assert(bit16(a, 2) == bit16(b, 2));
    assert(bit16(a, 3) == bit16(b, 3));
    assert(bit16(a, 4) == bit16(b, 4));
    assert(bit16(a, 5) == bit16(b, 5));
    assert(bit16(a, 6) == bit16(b, 6));
    assert(bit16(a, 7) == bit16(b, 7));
    assert(bit16(a, 8) == bit16(b, 8));
    assert(bit16(a, 9) == bit16(b, 9));
    assert(bit16(a, 10) == bit16(b, 10));
    assert(bit16(a, 11) == bit16(b, 11));
    assert(bit16(a, 12) == bit16(b, 12));
    assert(bit16(a, 13) == bit16(b, 13));
    assert(bit16(a, 14) == bit16(b, 14));
    assert(bit16(a, 15) == bit16(b, 15));
    lemma_bits_unique_bv(a, b);
}

proof fn lemma_bits_unique_bv(a: u16, b: u16)
    by (bit_vector)
    requires
        (a >> 0u16) & 1u16 == 1u16 <==> (b >> 0u16) & 1u16 == 1u16,
        (a >> 1u16) & 1u16 == 1u16 <==> (b >> 1u16) & 1u16 == 1u16,
        (a >> 2u16) & 1u16 == 1u16 <==> (b >> 2u16) & 1u16 == 1u16,
        (a >> 3u16) & 1u16 == 1u16 <==> (b >> 3u16) & 1u16 == 1u16,
        (a >> 4u16) & 1u16 == 1u16 <==> (b >> 4u16) & 1u16 == 1u16,
        (a >> 5u16) & 1u16 == 1u16 <==> (b >> 5u16) & 1u16 == 1u16,
        (a >> 6u16) & 1u16 == 1u16 <==> (b >> 6u16) & 1u16 == 1u16,
        (a >> 7u16) & 1u16 == 1u16 <==> (b >> 7u16) & 1u16 == 1u16,
        (a >> 8u16) & 1u16 == 1u16 <==> (b >> 8u16) & 1u16 == 1u16,
        (a >> 9u16) & 1u16 == 1u16 <==> (b >> 9u16) & 1u16 == 1u16,
        (a >> 10u16) & 1u16 == 1u16 <==> (b >> 10u16) & 1u16 == 1u16,
        (a >> 11u16) & 1u16 == 1u16 <==> (b >> 11u16) & 1u16 == 1u16,
        (a >> 12u16) & 1u16 == 1u16 <==> (b >> 12u16) & 1u16 == 1u16,
        (a >> 13u16) & 1u16 == 1u16 <==> (b >> 13u16) & 1u16 == 1u16,
        (a >> 14u16) & 1u16 == 1u16 <==> (b >> 14u16) & 1u16 == 1u16,
        (a >> 15u16) & 1u16 == 1u16 <==> (b >> 15u16) & 1u16 == 1u16,
    ensures
        a == b,
{
}

/// The word whose bit `i` is the level of pin `i` (bits past the last pin are 0).
pub open spec fn levels_word(pins: Seq<Pin>) -> u16 {
    choose|v: u16| #[trigger] encodes_levels(v, pins)
}

pub open spec fn encodes_levels(v: u16, pins: Seq<Pin>) -> bool {
    forall|i: int| 0 <= i < 16 ==> #[trigger] bit16(v, i) == (i < pins.len() && pins[i].level)
}

/// An ordered group of pins read and written as one word, bit `i` on pin `i`.
#[derive(Debug)]
pub struct Port {
    pub pins: Vec<Pin>,
}

impl Port {
    pub open spec fn wf(&self) -> bool {
        self.pins@.len() <= 16
    }

    pub open spec fn width(&self) -> nat {
        self.pins@.len()
    }

    pub fn from_pins(pins: Vec<Pin>) -> (r: Port)
        requires
            pins@.len() <= 16,
        ensures
            r.pins == pins,
            r.wf(),
    {
        Port { pins }
    }

    pub fn width_exec(&self) -> (r: usize)
        ensures
            r == self.pins@.len(),
    {
        self.pins.len()
    }

    /// The word on the port: bit `i` is the level of pin `i`, bits above the width are 0.
    pub fn read(&self) -> (r: u16)
        requires
            self.wf(),
        ensures
            forall|i: int| 0 <= i < 16 ==> bit16(r, i) == (i < self.pins@.len() && self.pins@[i].level),
            r == levels_word(self.pins@),
    {
        let r = self.read_bits();
        proof {
            assert(encodes_levels(r, self.pins@));
            let w = levels_word(self.pins@);
            assert(encodes_levels(w, self.pins@));
            lemma_bits_unique(r, w);
        }
        r
    }

    fn read_bits(&self) -> (r: u16)
        requires
            self.wf(),
        ensures
            forall|i: int| 0 <= i < 16 ==> bit16(r, i) == (i < self.pins@.len() && self.pins@[i].level),
    {
        let mut acc: u16 = 0;
        let mut i: usize = 0;
        proof {
            assert forall|j: int| 0 <= j < 16 implies !bit16(acc, j) by {
                lemma_zero_bits(j as u16);
            }
        }
        while i < self.pins.len()
            invariant
                self.wf(),
                i <= self.pins@.len(),
                forall|j: int| 0 <= j < 16 ==> bit16(acc, j) == (j < i && self.pins@[j].level),
            decreases self.pins@.len() - i,
        {
            if self.pins[i].level {
                let old_acc = acc;
                acc = acc | (1u16 << i as u16);
                proof {
                    assert forall|j: int| 0 <= j < 16 implies bit16(acc, j) == (j < i + 1
                        && self.pins@[j].level) by {
                        lemma_or_bit(old_acc, i as u16, j as u16);
                        assert(bit16(old_acc, j) == (j < i && self.pins@[j].level));
                    }
                }
            }
            i = i + 1;
        }
        acc
    }

    /// Drives bit `i` of `v` onto pin `i`; pins that do not drive keep their level.
    /// Returns whether any level changed.
    pub fn write(&mut self, v: u16) -> (r: bool)
        requires
            old(self).wf(),
        ensures
            final(self).wf(),
            final(self).pins@.len() == old(self).pins@.len(),
            forall|i: int|
                0 <= i < old(self).pins@.len() ==> {
                    let p = old(self).pins@[i];
                    #[trigger] final(self).pins@[i] == if p.drives() {
                        Pin { level: bit16(v, i), ..p }
                    } else {
                        p
                    }
                },
            r == exists|i: int|
                0 <= i < old(self).pins@.len() && old(self).pins@[i].drives() && old(
                    self,
                ).pins@[i].level != bit16(v, i),
    {
        let mut changed = false;
        let mut i: usize = 0;
        while i < self.pins.len()
            invariant
                self.pins@.len() == old(self).pins@.len(),
                old(self).wf(),
                self.wf(),
                i <= self.pins@.len(),
                forall|j: int|
                    0 <= j < i ==> {
                        let p = old(self).pins@[j];
                        #[trigger] self.pins@[j] == if p.drives() {
                            Pin { level: bit16(v, j), ..p }
                        } else {
                            p
                        }
                    },
                forall|j: int| i <= j < self.pins@.len() ==> self.pins@[j] == old(self).pins@[j],
                changed == exists|j: int|
                    0 <= j < i && old(self).pins@[j].drives() && old(self).pins@[j].level
                        != bit16(v, j),
            decreases self.pins@.len() - i,
        {
            let b = (v >> i as u16) & 1u16 == 1u16;
            let mut p = self.pins[i];
            let c = p.write(b);
            self.pins.set(i, p);
            if c {
                changed = true;
            }
            i = i + 1;
        }
        changed
    }

    /// Delivers bit `i` of `v` to pin `i` as a linked writer would: input pins latch it,
    /// output pins keep their own level. Returns whether any level changed.
    pub fn set_levels(&mut self, v: u16) -> (r: bool)
        requires
            old(self).wf(),
        ensures
            final(self).wf(),
            final(self).pins@.len() == old(self).pins@.len(),
            forall|i: int|
                0 <= i < old(self).pins@.len() ==> {
                    let p = old(self).pins@[i];
                    #[trigger] final(self).pins@[i] == if p.direction == PinDirection::Input {
                        Pin { level: bit16(v, i), ..p }
                    } else {
                        p
                    }
                },
            r == exists|i: int|
                0 <= i < old(self).pins@.len() && old(self).pins@[i].direction == PinDirection::Input
                    && old(self).pins@[i].level != bit16(v, i),
    {
        let mut changed = false;
        let mut i: usize = 0;
        while i < self.pins.len()
            invariant
                self.pins@.len() == old(self).pins@.len(),
                old(self).wf(),
                self.wf(),
                i <= self.pins@.len(),
                forall|j: int|
                    0 <= j < i ==> {
                        let p = old(self).pins@[j];
                        #[trigger] self.pins@[j] == if p.direction == PinDirection::Input {
                            Pin { level: bit16(v, j), ..p }
                        } else {
                            p
                        }
                    },
                forall|j: int| i <= j < self.pins@.len() ==> self.pins@[j] == old(self).pins@[j],
                changed == exists|j: int|
                    0 <= j < i && old(self).pins@[j].direction == PinDirection::Input
                        && old(self).pins@[j].level != bit16(v, j),
            decreases self.pins@.len() - i,
        {
            let b = (v >> i as u16) & 1u16 == 1u16;
            let mut p = self.pins[i];
            if p.set_val(b) {
                changed = true;
            }
            self.pins.set(i, p);
            i = i + 1;
        }
        changed
    }

    /// Every pin of the port drives the wires linked to it.
    pub open spec fn drives(&self) -> bool {
        forall|i: int| 0 <= i < self.pins@.len() ==> (#[trigger] self.pins@[i]).drives()
    }

    /// Every pin of the port is high impedance or an input: nothing reaches linked readers.
    pub open spec fn floats(&self) -> bool {
        forall|i: int| 0 <= i < self.pins@.len() ==> !(#[trigger] self.pins@[i]).drives()
    }

    pub fn is_driving(&self) -> (r: bool)
        ensures
            r == self.drives(),
    {
        let mut i: usize = 0;
        while i < self.pins.len()
            invariant
                i <= self.pins@.len(),
                forall|j: int| 0 <= j < i ==> (#[trigger] self.pins@[j]).drives(),
            decreases self.pins@.len() - i,
        {
            if !(self.pins[i].direction == PinDirection::Output && self.pins[i].enabled) {
                return false;
            }
            i = i + 1;
        }
        true
    }

    /// Switches every pin of the port at once; refused unless all are tri-state.
    pub fn set_direction(&mut self, d: PinDirection) -> (r: Result<(), PinError>)
        requires
            old(self).wf(),
        ensures
            final(self).wf(),
            r.is_ok() == (forall|i: int| 0 <= i < old(self).pins@.len() ==> old(self).pins@[i].tri_state),
            r.is_ok() ==> final(self).pins@.len() == old(self).pins@.len() && forall|i: int|
                0 <= i < old(self).pins@.len() ==> #[trigger] final(self).pins@[i] == (Pin {
                    direction: d,
                    ..old(self).pins@[i]
                }),
            r.is_err() ==> *final(self) == *old(self),
    {
        let mut i: usize = 0;
        while i < self.pins.len()
            invariant
                *self == *old(self),
                old(self).wf(),
                i <= self.pins@.len(),
                forall|j: int| 0 <= j < i ==> self.pins@[j].tri_state,
            decreases self.pins@.len() - i,
        {
            if !self.pins[i].tri_state {
                return Err(PinError::DirectionMismatch);
            }
            i = i + 1;
        }
        let mut i: usize = 0;
        while i < self.pins.len()
            invariant
                self.pins@.len() == old(self).pins@.len(),
                old(self).wf(),
                i <= self.pins@.len(),
                forall|j: int| 0 <= j < i ==> #[trigger] self.pins@[j] == (Pin { direction: d, ..old(self).pins@[j] }),
                forall|j: int| i <= j < self.pins@.len() ==> self.pins@[j] == old(self).pins@[j],
            decreases self.pins@.len() - i,
        {
            let mut p = self.pins[i];
            p.direction = d;
            self.pins.set(i, p);
            i = i + 1;
        }
        Ok(())
    }

    /// Connects (`true`) or disconnects every pin of the port.
    pub fn set_enable(&mut self, enabled: bool)
        requires
            old(self).wf(),
        ensures
            final(self).wf(),
            final(self).pins@.len() == old(self).pins@.len(),
            forall|i: int|
                0 <= i < old(self).pins@.len() ==> #[trigger] final(self).pins@[i] == (Pin {
                    enabled,
                    ..old(self).pins@[i]
                }),
    {
        let mut i: usize = 0;
        while i < self.pins.len()
            invariant
                self.pins@.len() == old(self).pins@.len(),
                old(self).wf(),
                i <= self.pins@.len(),
                forall|j: int| 0 <= j < i ==> #[trigger] self.pins@[j] == (Pin { enabled, ..old(self).pins@[j] }),
                forall|j: int| i <= j < self.pins@.len() ==> self.pins@[j] == old(self).pins@[j],
            decreases self.pins@.len() - i,
        {
            let mut p = self.pins[i];
            p.enabled = enabled;
            self.pins.set(i, p);
            i = i + 1;
        }
    }
}

} // verus!
