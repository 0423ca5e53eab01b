use vstd::prelude::*;
use vstd::string::StringExecFns;
use crate::pin::{Pin, PinDirection, Port};

verus! {

/// A level change of one pin of one component.
#[derive(Debug)]
pub struct PinMessage {
    pub component: String,
    pub pin: String,
    pub val: bool,
}

impl PinMessage {
    pub fn new(component: &str, pin: &str, val: bool) -> (r: PinMessage)
        ensures
            r.component@ == component@,
            r.pin@ == pin@,
            r.val == val,
    {
        PinMessage { component: String::from_str(component), pin: String::from_str(pin), val }
    }
}

/// A wire from a writer pin to a reader pin, each named by component and pin.
#[derive(Debug)]
pub struct Link {
    pub writer: String,
    pub writer_pin: String,
    pub reader: String,
    pub reader_pin: String,
}

/// The names a link joins.
pub type LinkView = (Seq<char>, Seq<char>, Seq<char>, Seq<char>);

impl Link {
    pub open spec fn view(&self) -> LinkView {
        (self.writer@, self.writer_pin@, self.reader@, self.reader_pin@)
    }
}

/// The link from pin `pin` of `component` reaches the reader endpoint `e`.
pub open spec fn link_matches(l: Link, component: Seq<char>, pin: Seq<char>, e: (String, String)) -> bool {
    l.writer@ == component && l.writer_pin@ == pin && e.0@ == l.reader@ && e.1@ == l.reader_pin@
}

/// `l` is the link that `link_range` adds for some index of `range`.
pub open spec fn in_range(
    l: Link,
    writer: Seq<char>,
    writer_prefix: Seq<char>,
    reader: Seq<char>,
    reader_prefix: Seq<char>,
    range: std::ops::Range<u8>,
) -> bool {
    exists|i: u8|
        range.start <= i < range.end && #[trigger] range_view(writer, writer_prefix, reader, reader_prefix, i)
            == l.view()
}

/// The link that `link_range` adds for index `i`.
pub open spec fn range_view(
    writer: Seq<char>,
    writer_prefix: Seq<char>,
    reader: Seq<char>,
    reader_prefix: Seq<char>,
    i: u8,
) -> LinkView {
    (writer, writer_prefix + decimal(i as nat), reader, reader_prefix + decimal(i as nat))
}

/// Some link of `links` runs from pin `pin` of `component` to the reader endpoint `e`.
pub open spec fn reader_listed(links: Seq<Link>, component: Seq<char>, pin: Seq<char>, e: (String, String)) -> bool {
    exists|j: int| 0 <= j < links.len() && #[trigger] link_matches(links[j], component, pin, e)
}

/// Some link of `links` joins the names of `l`.
pub open spec fn contains_link(links: Seq<Link>, l: LinkView) -> bool {
    exists|j: int| 0 <= j < links.len() && #[trigger] links[j].view() == l
}

/// Decimal digits of `n`, most significant first.
pub open spec fn decimal(n: nat) -> Seq<char>
    decreases n,
{
    if n < 10 {
        seq![digit_char(n)]
    } else {
        decimal(n / 10) + seq![digit_char(n % 10)]
    }
}

pub open spec fn digit_char(d: nat) -> char {
    (('0' as u8) + d) as char
}

fn digit_str(d: u8) -> (r: &'static str)
    requires
        d < 10,
    ensures
        r@ == seq![digit_char(d as nat)],
{
    match d {
        0 => {
            proof { reveal_strlit("0"); }
            "0"
        },
        1 => {
            proof { reveal_strlit("1"); }
            "1"
        },
        2 => {
            proof { reveal_strlit("2"); }
            "2"
        },
        3 => {
            proof { reveal_strlit("3"); }
            "3"
        },
        4 => {
            proof { reveal_strlit("4"); }
            "4"
        },
        5 => {
            proof { reveal_strlit("5"); }
            "5"
        },
        6 => {
            proof { reveal_strlit("6"); }
            "6"
        },
        7 => {
            proof { reveal_strlit("7"); }
            "7"
        },
        8 => {
            proof { reveal_strlit("8"); }
            "8"
        },
        _ => {
            proof { reveal_strlit("9"); }
            "9"
        },
    }
}

/// `prefix` followed by the decimal digits of `i`, as in "A12".
pub fn indexed_name(prefix: &str, i: u8) -> (r: String)
    ensures
        r@ == prefix@ + decimal(i as nat),
{
    let mut s = String::from_str(prefix);
    proof {
        let n = i as nat;
        if n >= 10 {
            assert(decimal(n) == decimal(n / 10) + seq![digit_char(n % 10)]);
            if n / 10 >= 10 {
                assert(decimal(n / 10) == decimal(n / 100) + seq![digit_char((n / 10) % 10)]);
                assert(decimal(n / 100) == seq![digit_char(n / 100)]);
            } else {
                assert(decimal(n / 10) == seq![digit_char(n / 10)]);
            }
        }
    }
    if i >= 100 {
        s.append(digit_str(i / 100));
        s.append(digit_str(i / 10 % 10));
    } else if i >= 10 {
        s.append(digit_str(i / 10));
    }
    s.append(digit_str(i % 10));
    proof {
        assert(s@ =~= prefix@ + decimal(i as nat));
    }
    s
}

/// Collects components by name and the links between their pins.
#[derive(Debug)]
pub struct CircuitBuilder {
    pub components: Vec<String>,
    pub links: Vec<Link>,
}

impl CircuitBuilder {
    pub fn new() -> (r: CircuitBuilder)
        ensures
            r.components@.len() == 0,
            r.links@.len() == 0,
    {
        CircuitBuilder { components: Vec::new(), links: Vec::new() }
    }

    /// Registers a component under `name`; a name given twice is kept once.
    pub fn add_component(&mut self, name: &str)
        ensures
            final(self).links == old(self).links,
            (exists|i: int| 0 <= i < old(self).components@.len() && old(self).components@[i]@ == name@)
                ==> final(self).components == old(self).components,
            !(exists|i: int| 0 <= i < old(self).components@.len() && old(self).components@[i]@ == name@)
                ==> final(self).components@ == old(self).components@.push(final(self).components@.last())
                && final(self).components@.last()@ == name@,
    {
        let n = String::from_str(name);
        let mut i: usize = 0;
        while i < self.components.len()
            invariant
                i <= self.components@.len(),
                n@ == name@,
                *self == *old(self),
                forall|j: int| 0 <= j < i ==> self.components@[j]@ != name@,
            decreases self.components@.len() - i,
        {
            if self.components[i] == n {
                return;
            }
            i = i + 1;
        }
        self.components.push(n);
    }

    /// Links the writer pin to the reader pin; a link already present is kept once.
    pub fn link(&mut self, writer_name: &str, writer_pin_name: &str, reader_name: &str, reader_pin_name: &str)
        ensures
            final(self).components == old(self).components,
            contains_link(old(self).links@, (writer_name@, writer_pin_name@, reader_name@, reader_pin_name@))
                ==> final(self).links == old(self).links,
            !contains_link(old(self).links@, (writer_name@, writer_pin_name@, reader_name@, reader_pin_name@))
                ==> final(self).links@.len() == old(self).links@.len() + 1
                && final(self).links@.drop_last() == old(self).links@
                && final(self).links@.last().view() == (writer_name@, writer_pin_name@, reader_name@, reader_pin_name@),
    {
        let l = Link {
            writer: String::from_str(writer_name),
            writer_pin: String::from_str(writer_pin_name),
            reader: String::from_str(reader_name),
            reader_pin: String::from_str(reader_pin_name),
        };
        let ghost lv = (writer_name@, writer_pin_name@, reader_name@, reader_pin_name@);
        let mut i: usize = 0;
        while i < self.links.len()
            invariant
                i <= self.links@.len(),
                l.view() == lv,
                lv == (writer_name@, writer_pin_name@, reader_name@, reader_pin_name@),
                *self == *old(self),
                forall|j: int| 0 <= j < i ==> self.links@[j].view() != lv,
            decreases self.links@.len() - i,
        {
            let x = &self.links[i];
            if x.writer == l.writer && x.writer_pin == l.writer_pin && x.reader == l.reader
                && x.reader_pin == l.reader_pin {
                proof {
                    assert(self.links@[i as int].view() == lv);
                    assert(lv == (writer_name@, writer_pin_name@, reader_name@, reader_pin_name@));
                    assert(contains_link(self.links@, lv));
                }
                return;
            }
            i = i + 1;
        }
        self.links.push(l);
        proof {
            assert(self.links@.drop_last() =~= old(self).links@);
        }
    }

    /// Links `writer_pin_prefix` i to `reader_pin_prefix` i for each i of `range`; links
    /// already present are kept once, and nothing else is added.
    pub fn link_range(
        &mut self,
        writer_name: &str,
        writer_pin_prefix: &str,
        reader_name: &str,
        reader_pin_prefix: &str,
        range: std::ops::Range<u8>,
    )
        ensures
            final(self).components == old(self).components,
            forall|i: u8|
                range.start <= i < range.end ==> #[trigger] contains_link(
                    final(self).links@,
                    range_view(writer_name@, writer_pin_prefix@, reader_name@, reader_pin_prefix@, i),
                ),
            final(self).links@.len() >= old(self).links@.len(),
            final(self).links@.subrange(0, old(self).links@.len() as int) == old(self).links@,
            forall|k: int|
                old(self).links@.len() <= k < final(self).links@.len() ==> #[trigger] in_range(
                    final(self).links@[k],
                    writer_name@,
                    writer_pin_prefix@,
                    reader_name@,
                    reader_pin_prefix@,
                    range,
                ),
    {
        let ghost n0 = self.links@.len();
        let ghost mut idx: Seq<u8> = Seq::empty();
        let mut i: u8 = range.start;
        while i < range.end
            invariant
                range.start <= i,
                idx.len() > 0 ==> i <= range.end,
                n0 == old(self).links@.len(),
                self.components == old(self).components,
                self.links@.len() == n0 + idx.len(),
                self.links@.subrange(0, n0 as int) == old(self).links@,
                forall|k: int|
                    0 <= k < idx.len() ==> range.start <= #[trigger] idx[k] < i && self.links@[n0 + k].view()
                        == range_view(writer_name@, writer_pin_prefix@, reader_name@, reader_pin_prefix@, idx[k]),
                forall|k: u8| range.start <= k < i ==> #[trigger] contains_link(self.links@, range_view(writer_name@, writer_pin_prefix@, reader_name@, reader_pin_prefix@, k)),
            decreases range.end - i,
        {
            let w = indexed_name(writer_pin_prefix, i);
            let r = indexed_name(reader_pin_prefix, i);
            let ghost before = self.links@;
            self.link(writer_name, w.as_str(), reader_name, r.as_str());
            proof {
                let now = self.links@;
                assert(range_view(writer_name@, writer_pin_prefix@, reader_name@, reader_pin_prefix@, i) == (writer_name@, w@, reader_name@, r@));
                if now != before {
                    assert forall|k: int| 0 <= k < before.len() implies now[k] == before[k] by {
                        assert(now.drop_last()[k] == now[k]);
                    }
                    let ghost idx0 = idx;
                    idx = idx.push(i);
                    assert forall|k: int| 0 <= k < idx0.len() implies idx[k] == idx0[k] by {}
                    assert(now[now.len() - 1].view() == range_view(writer_name@, writer_pin_prefix@, reader_name@, reader_pin_prefix@, i));
                    assert(contains_link(now, range_view(writer_name@, writer_pin_prefix@, reader_name@, reader_pin_prefix@, i)));
                    assert(now.subrange(0, n0 as int) =~= before.subrange(0, n0 as int));
                    assert forall|k: u8| range.start <= k < i + 1 implies #[trigger] contains_link(now, range_view(writer_name@, writer_pin_prefix@, reader_name@, reader_pin_prefix@, k)) by {
                        if k < i {
                            assert(contains_link(before, range_view(writer_name@, writer_pin_prefix@, reader_name@, reader_pin_prefix@, k)));
                            let m = choose|m: int| 0 <= m < before.len() && #[trigger] before[m].view() == range_view(writer_name@, writer_pin_prefix@, reader_name@, reader_pin_prefix@, k);
                            assert(now[m] == before[m]);
                        }
                    }
                    assert forall|k: int| 0 <= k < idx.len() implies range.start <= #[trigger] idx[k] < i + 1
                        && now[n0 + k].view() == range_view(writer_name@, writer_pin_prefix@, reader_name@, reader_pin_prefix@, idx[k]) by {
                        if k < idx.len() - 1 {
                            assert(now[n0 + k] == before[n0 + k]);
                            assert(idx[k] == idx0[k]);
                        } else {
                            assert(idx[k] == i);
                        }
                    }
                } else {
                    assert(contains_link(now, range_view(writer_name@, writer_pin_prefix@, reader_name@, reader_pin_prefix@, i)));
                }
            }
            i = i + 1;
        }
        proof {
            assert forall|k: int| n0 <= k < self.links@.len() implies #[trigger] in_range(
                self.links@[k],
                writer_name@,
                writer_pin_prefix@,
                reader_name@,
                reader_pin_prefix@,
                range,
            ) by {
                let j = idx[k - n0];
                assert(range.start <= j < range.end);
                assert(self.links@[n0 + (k - n0)].view() == range_view(writer_name@, writer_pin_prefix@, reader_name@, reader_pin_prefix@, j));
            }
        }
    }

    /// The finished circuit.
    pub fn build(self) -> (r: Circuit)
        ensures
            r.components == self.components,
            r.links == self.links,
            !r.state,
    {
        Circuit { components: self.components, links: self.links, state: false }
    }
}

/// Components by name and the wires between their pins.
#[derive(Debug)]
pub struct Circuit {
    pub components: Vec<String>,
    pub links: Vec<Link>,
    /// Level of the clock output X1.OUT.
    pub state: bool,
}

impl Circuit {
    /// The reader endpoints linked to the pin `pin` of `component`, in link order.
    pub fn readers(&self, component: &str, pin: &str) -> (r: Vec<(String, String)>)
        ensures
            forall|k: int|
                0 <= k < r@.len() ==> #[trigger] reader_listed(self.links@, component@, pin@, r@[k]),
            forall|j: int|
                0 <= j < self.links@.len() && #[trigger] self.links@[j].writer@ == component@
                    && self.links@[j].writer_pin@ == pin@ ==> exists|k: int|
                    0 <= k < r@.len() && #[trigger] link_matches(
                        self.links@[j],
                        component@,
                        pin@,
                        r@[k],
                    ),
    {
        let c = String::from_str(component);
        let p = String::from_str(pin);
        let mut out: Vec<(String, String)> = Vec::new();
        // for each output, the link it came from; for each link, its output (or -1)
        let ghost mut src: Seq<int> = Seq::empty();
        let ghost mut dst: Seq<int> = Seq::empty();
        let mut i: usize = 0;
        while i < self.links.len()
            invariant
                i <= self.links@.len(),
                c@ == component@,
                p@ == pin@,
                src.len() == out@.len(),
                dst.len() == i,
                forall|k: int|
                    0 <= k < out@.len() ==> 0 <= #[trigger] src[k] < i && link_matches(
                        self.links@[src[k]],
                        component@,
                        pin@,
                        out@[k],
                    ),
                forall|j: int|
                    0 <= j < i ==> (#[trigger] dst[j] == -1 <==> !(self.links@[j].writer@ == component@
                        && self.links@[j].writer_pin@ == pin@)) && (dst[j] != -1 ==> 0 <= dst[j]
                        < out@.len() && link_matches(self.links@[j], component@, pin@, out@[dst[j]])),
            decreases self.links@.len() - i,
        {
            let l = &self.links[i];
            if l.writer == c && l.writer_pin == p {
                let ghost before = out@;
                out.push((l.reader.clone(), l.reader_pin.clone()));
                proof {
                    assert forall|k: int| 0 <= k < before.len() implies out@[k] == before[k] by {}
                    src = src.push(i as int);
                    dst = dst.push(before.len() as int);
                }
            } else {
                proof {
                    dst = dst.push(-1);
                }
            }
            i = i + 1;
        }
        proof {
            assert forall|k: int| 0 <= k < out@.len() implies #[trigger] reader_listed(
                self.links@,
                component@,
                pin@,
                out@[k],
            ) by {
                let j = src[k];
                assert(link_matches(self.links@[j], component@, pin@, out@[k]));
            }
            assert forall|j: int| 0 <= j < self.links@.len() && #[trigger] self.links@[j].writer@ == component@
                && self.links@[j].writer_pin@ == pin@ implies exists|k: int|
                0 <= k < out@.len() && #[trigger] link_matches(
                    self.links@[j],
                    component@,
                    pin@,
                    out@[k],
                ) by {
                let k = dst[j];
                assert(link_matches(self.links@[j], component@, pin@, out@[k]));
            }
        }
        out
    }

    /// Flips the clock output and returns the message announcing its new level.
    pub fn tick(&mut self) -> (r: PinMessage)
        ensures
            final(self).state == !old(self).state,
            r.val == old(self).state,
            final(self).links == old(self).links,
    {
        let val = self.state;
        self.state = !val;
        PinMessage::new("X1", "OUT", val)
    }
}

/// Two linked pins both drive the wire: bus contention.
pub fn contention(a: &Pin, b: &Pin) -> (r: bool)
    ensures
        r == (a.drives() && b.drives()),
{
    a.direction == PinDirection::Output && a.enabled && b.direction == PinDirection::Output
        && b.enabled
}

/// Carries the level of a writer pin to a linked reader pin. Only a driving writer (an
/// enabled output) reaches the reader, and only an input reader takes the level.
/// Returns whether the reader's level changed, that is whether its component is to react.
pub fn route(writer: &Pin, reader: &mut Pin) -> (r: bool)
    ensures
        !writer.drives() ==> *final(reader) == *old(reader) && !r,
        writer.drives() && old(reader).direction == PinDirection::Input ==> *final(reader) == (Pin {
            level: writer.level,
            ..*old(reader)
        }) && r == (old(reader).level != writer.level),
        old(reader).direction == PinDirection::Output ==> *final(reader) == *old(reader) && !r,
{
    if writer.direction == PinDirection::Output && writer.enabled {
        reader.set_val(writer.level)
    } else {
        false
    }
}

/// Carries a group of pins to a linked group, pin by pin. A group whose pins are all
/// disconnected (tri-state disabled) or inputs reaches nothing.
pub fn route_port(writer: &Port, reader: &mut Port) -> (r: bool)
    requires
        old(reader).wf(),
    ensures
        final(reader).wf(),
        final(reader).pins@.len() == old(reader).pins@.len(),
        forall|i: int|
            0 <= i < old(reader).pins@.len() ==> {
                let p = old(reader).pins@[i];
                #[trigger] final(reader).pins@[i] == if i < writer.pins@.len()
                    && writer.pins@[i].drives() && p.direction == PinDirection::Input {
                    Pin { level: writer.pins@[i].level, ..p }
                } else {
                    p
                }
            },
        writer.floats() ==> final(reader).pins@ == old(reader).pins@ && !r,
{
    let mut changed = false;
    let mut i: usize = 0;
    while i < reader.pins.len() && i < writer.pins.len()
        invariant
            reader.pins@.len() == old(reader).pins@.len(),
            old(reader).wf(),
            i <= reader.pins@.len(),
            forall|j: int|
                0 <= j < i ==> {
                    let p = old(reader).pins@[j];
                    #[trigger] reader.pins@[j] == if j < writer.pins@.len()
                        && writer.pins@[j].drives() && p.direction == PinDirection::Input {
                        Pin { level: writer.pins@[j].level, ..p }
                    } else {
                        p
                    }
                },
            forall|j: int| i <= j < reader.pins@.len() ==> reader.pins@[j] == old(reader).pins@[j],
            writer.floats() ==> !changed,
        decreases reader.pins@.len() - i,
    {
        let mut p = reader.pins[i];
        if route(&writer.pins[i], &mut p) {
            changed = true;
        }
        reader.pins.set(i, p);
        i = i + 1;
    }
    proof {
        if writer.floats() {
            assert(reader.pins@ =~= old(reader).pins@);
        }
    }
    changed
}

} // verus!
