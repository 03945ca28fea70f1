//! Recording the values of ports over time, and writing the record down as
//! a value change dump.

use vstd::prelude::*;
use std::collections::BTreeMap;
use vstd::string::StrSliceExecFns;
use vstd::string::StringExecFns;
use crate::logicbit::ieee1164::Ieee1164;
use crate::logicbit::logicvector::{symbol, LogicVector};
use crate::network::{Network, NetworkState};
use crate::port::portdirection::{Input, PortDirection};
use crate::port::pport::Port;

verus! {

/// A model that can name its ports, for whoever wants to watch them.
pub trait IterPorts {
    /// The ports of the model: a short name and the number of the port in
    /// the network, each.
    spec fn named_ports(&self) -> Seq<(&'static str, usize)>;

    /// The ports of the model, each with a short name and as a handle that
    /// only reads.
    fn iter_ports(&self) -> (ports: Vec<(&'static str, Port<Ieee1164, Input>)>)
        ensures
            ports@.len() == self.named_ports().len(),
            forall|k: int|
                0 <= k < ports@.len() ==> (#[trigger] ports@[k]).0 == self.named_ports()[k].0
                    && ports@[k].1.index() == self.named_ports()[k].1,
    ;
}

/// Something that holds scalar values in a network, for whoever wants to
/// watch them.
pub trait IterValues {
    /// The ports whose values are held.
    spec fn value_ports(&self) -> Seq<usize>;

    /// The values that are held, in the order of `value_ports`.
    fn iter_values(&self, net: &Network<Ieee1164>) -> (values: Vec<Ieee1164>)
        requires
            forall|k: int| 0 <= k < self.value_ports().len() ==> net@.has_port(#[trigger] self.value_ports()[k]),
        ensures
            values@ == net@.values(self.value_ports()),
    ;
}

impl<D: PortDirection> IterValues for Port<Ieee1164, D> {
    open spec fn value_ports(&self) -> Seq<usize> {
        seq![self.index()]
    }

    fn iter_values(&self, net: &Network<Ieee1164>) -> (values: Vec<Ieee1164>) {
        assert(net@.has_port(self.value_ports()[0]));
        let mut values: Vec<Ieee1164> = Vec::new();
        values.push(net.cells[self.id()].value);
        assert(values@ =~= net@.values(self.value_ports()));
        values
    }
}

/// The kind of a variable in a dump.
#[derive(Debug, Clone, Copy, PartialEq, Eq, Structural)]
pub enum Type {
    /// A single wire.
    Wire,
    /// Several wires.
    Register,
}

/// A variable of a dump.
#[derive(Debug)]
pub struct Ident {
    /// The kind of the variable.
    pub ty: Type,
    /// How many wires the variable has.
    pub width: u8,
    /// The character that stands for the variable in the dump.
    pub ident: char,
    /// The name of the variable.
    pub name: String,
}

/// A variable of a dump, as a specification value.
pub struct IdentView {
    /// The kind of the variable.
    pub ty: Type,
    /// How many wires the variable has.
    pub width: u8,
    /// The character that stands for the variable in the dump.
    pub ident: char,
    /// The name of the variable.
    pub name: Seq<char>,
}

/// What a dumper has recorded, as a specification value.
pub struct VcdView {
    /// The name of the module.
    pub module_name: Seq<char>,
    /// The variables, in the order in which they were first recorded.
    pub identifiers: Seq<IdentView>,
    /// For each point in time the values recorded at it, each with the
    /// number of its variable, in the order in which they were recorded.
    pub records: Seq<Seq<(usize, Seq<char>)>>,
}

/// The most variables a dump can hold: one for each character from `"` to
/// the last of ASCII.
pub const MAX_IDENTIFIERS: usize = 94;

/// The character that stands for the variable with number `k`.
pub open spec fn ident_char(k: int) -> char {
    (0x22 + k) as char
}

/// The decimal digits of a number.
pub open spec fn decimal(n: nat) -> Seq<char>
    decreases n,
{
    if n < 10 {
        seq![digit(n)]
    } else {
        decimal(n / 10) + seq![digit(n % 10)]
    }
}

/// The character of a digit.
pub open spec fn digit(n: nat) -> char {
    if n == 0 {
        '0'
    } else if n == 1 {
        '1'
    } else if n == 2 {
        '2'
    } else if n == 3 {
        '3'
    } else if n == 4 {
        '4'
    } else if n == 5 {
        '5'
    } else if n == 6 {
        '6'
    } else if n == 7 {
        '7'
    } else if n == 8 {
        '8'
    } else {
        '9'
    }
}

/// The name of a kind of variable in a dump.
pub open spec fn type_text(ty: Type) -> Seq<char> {
    match ty {
        Type::Wire => "wire"@,
        Type::Register => "reg"@,
    }
}

/// The line that declares a variable.
pub open spec fn var_line(i: IdentView) -> Seq<char> {
    "$var "@ + type_text(i.ty) + " "@ + decimal(i.width as nat) + " "@ + seq![i.ident] + " "@ + i.name
        + " $end\n"@
}

/// The lines that declare the variables.
pub open spec fn vars_text(identifiers: Seq<IdentView>) -> Seq<char>
    decreases identifiers.len(),
{
    if identifiers.len() == 0 {
        Seq::empty()
    } else {
        vars_text(identifiers.drop_last()) + var_line(identifiers.last())
    }
}

/// The line of one recorded value: the value and the character of its
/// variable, with a `b` before and a blank between for a register.
pub open spec fn value_line(i: IdentView, value: Seq<char>) -> Seq<char> {
    match i.ty {
        Type::Wire => value + seq![i.ident] + "\n"@,
        Type::Register => "b"@ + value + " "@ + seq![i.ident] + "\n"@,
    }
}

/// The lines of the values recorded at one point in time.
pub open spec fn values_text(entries: Seq<(usize, Seq<char>)>, identifiers: Seq<IdentView>) -> Seq<char>
    decreases entries.len(),
{
    if entries.len() == 0 {
        Seq::empty()
    } else {
        values_text(entries.drop_last(), identifiers) + value_line(
            identifiers[entries.last().0 as int],
            entries.last().1,
        )
    }
}

/// The lines of all points in time: for each its number after a `#`, then
/// its values.
pub open spec fn dump_text(records: Seq<Seq<(usize, Seq<char>)>>, identifiers: Seq<IdentView>) -> Seq<char>
    decreases records.len(),
{
    if records.len() == 0 {
        Seq::empty()
    } else {
        dump_text(records.drop_last(), identifiers) + "#"@ + decimal((records.len() - 1) as nat)
            + "\n"@ + values_text(records.last(), identifiers)
    }
}

impl VcdView {
    /// Whether a variable has the name.
    pub open spec fn knows(self, name: Seq<char>) -> bool {
        exists|k: int| 0 <= k < self.identifiers.len() && #[trigger] self.identifiers[k].name == name
    }

    /// The number of the variable with the name, or the number that the
    /// next variable gets if there is none.
    pub open spec fn number_of(self, name: Seq<char>) -> int {
        if self.knows(name) {
            choose|k: int| 0 <= k < self.identifiers.len() && #[trigger] self.identifiers[k].name == name
        } else {
            self.identifiers.len() as int
        }
    }

    /// The invariant of a record: there is a current point in time, the
    /// variables have different names and the characters `"`, `#` and so
    /// on in their order, and every recorded value belongs to a variable.
    pub open spec fn wf(self) -> bool {
        &&& self.records.len() >= 1
        &&& self.identifiers.len() <= MAX_IDENTIFIERS
        &&& forall|k: int|
            0 <= k < self.identifiers.len() ==> (#[trigger] self.identifiers[k]).ident == ident_char(k)
        &&& forall|j: int, k: int|
            0 <= j < k < self.identifiers.len() ==> (#[trigger] self.identifiers[j]).name != (
            #[trigger] self.identifiers[k]).name
        &&& forall|t: int, e: int|
            0 <= t < self.records.len() && 0 <= e < self.records[t].len() ==> (
            #[trigger] self.records[t][e]).0 < self.identifiers.len()
    }

    /// The record after a value was recorded under a name at the current
    /// point in time. A name that is not known yet becomes a variable of
    /// the given kind and width.
    pub open spec fn recorded(self, name: Seq<char>, ty: Type, width: u8, value: Seq<char>) -> Self {
        let k = self.number_of(name);
        VcdView {
            module_name: self.module_name,
            identifiers: if self.knows(name) {
                self.identifiers
            } else {
                self.identifiers.push(IdentView { ty, width, ident: ident_char(k), name })
            },
            records: self.records.update(
                self.records.len() - 1,
                self.records.last().push((k as usize, value)),
            ),
        }
    }

    /// The record after the values of the named ports were recorded, one
    /// after the other, each as a wire.
    pub open spec fn recorded_ports(self, ports: Seq<(&'static str, usize)>, net: NetworkState<Ieee1164>) -> Self
        decreases ports.len(),
    {
        if ports.len() == 0 {
            self
        } else {
            self.recorded_ports(ports.drop_last(), net).recorded(
                ports.last().0@,
                Type::Wire,
                1,
                seq![net.ports[ports.last().1 as int].value.char_spec()],
            )
        }
    }

    /// The dump of the record, with the given date in its head.
    pub open spec fn text(self, date: Seq<char>) -> Seq<char> {
        "$date\n "@ + date + "\n$end\n"@ + "$version\n Logical-rs VCD dumper\n$end\n"@
            + "$timescale 1ps $end\n"@ + "$scope module "@ + self.module_name + " $end\n"@ + vars_text(
            self.identifiers,
        ) + "$upscope $end\n"@ + "$enddefinitions $end\n"@ + "$dumpvars\n"@ + dump_text(
            self.records,
            self.identifiers,
        )
    }

    /// Recording keeps the invariant, while there is a character left for
    /// a new variable.
    pub proof fn lemma_recorded(self, name: Seq<char>, ty: Type, width: u8, value: Seq<char>)
        requires
            self.wf(),
            self.knows(name) || self.identifiers.len() < MAX_IDENTIFIERS,
        ensures
            self.recorded(name, ty, width, value).wf(),
            self.recorded(name, ty, width, value).identifiers.len() <= self.identifiers.len() + 1,
    {
        let after = self.recorded(name, ty, width, value);
        let k = self.number_of(name);
        assert forall|t: int, e: int|
            0 <= t < after.records.len() && 0 <= e < after.records[t].len() implies (
        #[trigger] after.records[t][e]).0 < after.identifiers.len() by {
            if t == self.records.len() - 1 && e == self.records[t].len() {
            } else {
                assert(after.records[t][e] == self.records[t][e]);
            }
        }
        assert forall|i: int, j: int| 0 <= i < j < after.identifiers.len() implies (
        #[trigger] after.identifiers[i]).name != (#[trigger] after.identifiers[j]).name by {
            if j == self.identifiers.len() {
                assert(self.identifiers[i].name != name);
            }
        }
    }
}

/// Appends a text to a buffer of characters.
pub fn push_text(out: &mut Vec<char>, text: &str)
    ensures
        final(out)@ == old(out)@ + text@,
{
    let n = text.unicode_len();
    let mut k: usize = 0;
    while k < n
        invariant
            k <= n,
            n == text@.len(),
            out@ == old(out)@ + text@.take(k as int),
        decreases n - k,
    {
        let c = text.get_char(k);
        out.push(c);
        proof {
            assert(text@.take(k + 1) =~= text@.take(k as int).push(c));
            assert(out@ =~= old(out)@ + text@.take(k + 1));
        }
        k = k + 1;
    }
    assert(text@.take(k as int) =~= text@);
}

/// Appends the decimal digits of a number to a buffer of characters.
pub fn push_decimal(out: &mut Vec<char>, n: u64)
    ensures
        final(out)@ == old(out)@ + decimal(n as nat),
    decreases n,
{
    if n >= 10 {
        push_decimal(out, n / 10);
    }
    let d = (n % 10) as u8;
    let c = match d {
        0 => '0',
        1 => '1',
        2 => '2',
        3 => '3',
        4 => '4',
        5 => '5',
        6 => '6',
        7 => '7',
        8 => '8',
        _ => '9',
    };
    out.push(c);
    proof {
        assert(c == digit((n % 10) as nat));
        if n >= 10 {
            assert(out@ =~= old(out)@ + (decimal((n / 10) as nat) + seq![c]));
        } else {
            assert(out@ =~= old(out)@ + seq![c]);
        }
    }
}

/// The text of a scalar: its character.
pub fn scalar_text(value: Ieee1164) -> (s: String)
    ensures
        s@ == seq![value.char_spec()],
{
    String::from_str(symbol(value))
}

/// A dumper: it records the values it is given, point in time by point in
/// time, and writes them down as a value change dump.
#[derive(Debug)]
pub struct Vcd {
    module_name: String,
    tags: BTreeMap<u32, Vec<(usize, String)>>,
    identifier: Vec<Ident>,
    timestamp: u32,
}

/// The values of one point in time as a specification value.
pub open spec fn entries_view(entries: Vec<(usize, String)>) -> Seq<(usize, Seq<char>)> {
    Seq::new(entries@.len(), |e: int| (entries@[e].0, entries@[e].1@))
}

/// The variables as a specification value.
pub open spec fn identifiers_view(identifiers: Seq<Ident>) -> Seq<IdentView> {
    Seq::new(
        identifiers.len(),
        |k: int|
            IdentView {
                ty: identifiers[k].ty,
                width: identifiers[k].width,
                ident: identifiers[k].ident,
                name: identifiers[k].name@,
            },
    )
}

/// What a dumper with the given parts has recorded. A point in time
/// without an entry in the map has no values.
pub open spec fn state(
    module_name: Seq<char>,
    tags: Map<u32, Vec<(usize, String)>>,
    identifiers: Seq<Ident>,
    timestamp: u32,
) -> VcdView {
    VcdView {
        module_name,
        identifiers: identifiers_view(identifiers),
        records: Seq::new(
            (timestamp + 1) as nat,
            |t: int|
                if tags.contains_key(t as u32) {
                    entries_view(tags[t as u32])
                } else {
                    Seq::empty()
                },
        ),
    }
}

impl View for Vcd {
    type V = VcdView;

    closed spec fn view(&self) -> VcdView {
        state(self.module_name@, self.tags@, self.identifier@, self.timestamp)
    }
}

impl Vcd {
    #[verifier::type_invariant]
    spec fn inv(self) -> bool {
        self@.wf()
    }

    /// A dumper for a module, at its first point in time and with nothing
    /// recorded.
    pub fn new(module_name: &str) -> (vcd: Self)
        ensures
            vcd@.wf(),
            vcd@.module_name == module_name@,
            vcd@.identifiers.len() == 0,
            vcd@.records == seq![Seq::<(usize, Seq<char>)>::empty()],
    {
        let mut tags: BTreeMap<u32, Vec<(usize, String)>> = BTreeMap::new();
        tags.insert(0, Vec::new());
        let name = String::from_str(module_name);
        let identifier: Vec<Ident> = Vec::new();
        proof {
            let view = state(name@, tags@, identifier@, 0);
            assert(view.records =~~= seq![Seq::<(usize, Seq<char>)>::empty()]);
        }
        Vcd { module_name: name, tags, identifier, timestamp: 0 }
    }

    /// Takes the dumper apart and leaves one without a name, at its first
    /// point in time and with nothing recorded.
    fn take(&mut self) -> (taken: Vcd)
        ensures
            taken@ == old(self)@,
            taken@.wf(),
    {
        proof {
            use_type_invariant(&*self);
        }
        let tags: BTreeMap<u32, Vec<(usize, String)>> = BTreeMap::new();
        let name = String::new();
        let identifier: Vec<Ident> = Vec::new();
        proof {
            let view = state(name@, tags@, identifier@, 0);
            assert(view.records =~~= seq![Seq::<(usize, Seq<char>)>::empty()]);
        }
        let mut taken = Vcd { module_name: name, tags, identifier, timestamp: 0 };
        core::mem::swap(self, &mut taken);
        taken
    }

    /// The current point in time: the first is 0.
    pub fn timestamp(&self) -> (t: u32)
        ensures
            t + 1 == self@.records.len(),
            self@.wf(),
    {
        proof {
            use_type_invariant(self);
        }
        self.timestamp
    }

    /// How many variables the dumper has.
    pub fn identifiers(&self) -> (n: usize)
        ensures
            n == self@.identifiers.len(),
            self@.wf(),
    {
        proof {
            use_type_invariant(self);
        }
        self.identifier.len()
    }

    /// Goes on to the next point in time.
    pub fn tick(&mut self)
        requires
            old(self)@.records.len() <= u32::MAX,
        ensures
            final(self)@.wf(),
            final(self)@.module_name == old(self)@.module_name,
            final(self)@.identifiers == old(self)@.identifiers,
            final(self)@.records == old(self)@.records.push(Seq::empty()),
    {
        let ghost before = self@;
        let taken = self.take();
        let Vcd { module_name, mut tags, identifier, timestamp } = taken;
        let ghost old_tags = tags@;
        let next = timestamp + 1;
        tags.insert(next, Vec::new());
        proof {
            let after = state(module_name@, tags@, identifier@, next);
            assert forall|t: int| 0 <= t < after.records.len() implies #[trigger] after.records[t]
                =~= before.records.push(Seq::empty())[t] by {
                if t < next {
                    assert(tags@.contains_key(t as u32) == old_tags.contains_key(t as u32));
                }
            }
            assert(after.records =~= before.records.push(Seq::empty()));
            assert forall|t: int, e: int|
                0 <= t < after.records.len() && 0 <= e < after.records[t].len() implies (
            #[trigger] after.records[t][e]).0 < after.identifiers.len() by {
                assert(after.records[t][e] == before.records[t][e]);
            }
        }
        *self = Vcd { module_name, tags, identifier, timestamp: next };
    }

    /// The number of the variable with the name, if there is one.
    fn find(&self, name: &String) -> (r: Option<usize>)
        ensures
            r matches Some(k) ==> k < self@.identifiers.len() && self@.identifiers[k as int].name
                == name@,
            r is None ==> !self@.knows(name@),
    {
        let mut k: usize = 0;
        while k < self.identifier.len()
            invariant
                k <= self.identifier.len(),
                forall|i: int| 0 <= i < k ==> (#[trigger] self@.identifiers[i]).name != name@,
            decreases self.identifier.len() - k,
        {
            if self.identifier[k].name == *name {
                return Some(k);
            }
            k = k + 1;
        }
        None
    }

    /// Records a value under a name at the current point in time.
    fn record(&mut self, name: &str, ty: Type, width: u8, value: String)
        requires
            old(self)@.knows(name@) || old(self)@.identifiers.len() < MAX_IDENTIFIERS,
        ensures
            final(self)@ == old(self)@.recorded(name@, ty, width, value@),
            final(self)@.wf(),
    {
        proof {
            use_type_invariant(&*self);
        }
        let owned = String::from_str(name);
        let ghost before = self@;
        let found = self.find(&owned);
        let taken = self.take();
        let Vcd { module_name, mut tags, mut identifier, timestamp } = taken;
        let ghost old_tags = tags@;
        let ghost old_identifier = identifier@;
        let k = match found {
            Some(k) => {
                proof {
                    assert(before.knows(name@));
                    let c = before.number_of(name@);
                    if c != k {
                        if c < k {
                            assert(before.identifiers[c].name != before.identifiers[k as int].name);
                        } else {
                            assert(before.identifiers[k as int].name != before.identifiers[c].name);
                        }
                    }
                }
                k
            },
            None => {
                let k = identifier.len();
                let ident = ((0x22 + k) as u8) as char;
                assert(ident == ident_char(k as int));
                identifier.push(Ident { ty, width, ident, name: owned });
                k
            },
        };
        let mut entries = match tags.remove(&timestamp) {
            Some(entries) => entries,
            None => Vec::new(),
        };
        let ghost old_entries = entries_view(entries);
        entries.push((k, value));
        let ghost new_entries = entries_view(entries);
        tags.insert(timestamp, entries);
        proof {
            let after = before.recorded(name@, ty, width, value@);
            let made = state(module_name@, tags@, identifier@, timestamp);
            assert(old_entries == before.records[timestamp as int]);
            assert(new_entries =~= old_entries.push((k, value@)));
            assert(made.identifiers =~= after.identifiers);
            assert forall|t: int| 0 <= t < after.records.len() implies #[trigger] made.records[t]
                =~= after.records[t] by {
                if t != timestamp {
                    assert(tags@.contains_key(t as u32) == old_tags.contains_key(t as u32));
                }
            }
            assert(made.records =~= after.records);
            before.lemma_recorded(name@, ty, width, value@);
        }
        *self = Vcd { module_name, tags, identifier, timestamp };
    }

    /// Records the values of the ports of a model, each as a wire under the
    /// name that the model gives it.
    pub fn serialize_ports<P: IterPorts>(&mut self, net: &Network<Ieee1164>, ports: &P)
        requires
            old(self)@.identifiers.len() + ports.named_ports().len() <= MAX_IDENTIFIERS,
            forall|k: int|
                0 <= k < ports.named_ports().len() ==> net@.has_port(
                    (#[trigger] ports.named_ports()[k]).1,
                ),
        ensures
            final(self)@ == old(self)@.recorded_ports(ports.named_ports(), net@),
            final(self)@.wf(),
    {
        proof {
            use_type_invariant(&*self);
        }
        let list = ports.iter_ports();
        let ghost named = ports.named_ports();
        let mut k: usize = 0;
        while k < list.len()
            invariant
                k <= list.len(),
                list@.len() == named.len(),
                forall|i: int|
                    0 <= i < list@.len() ==> (#[trigger] list@[i]).0 == named[i].0 && list@[i].1.index()
                        == named[i].1,
                forall|i: int| 0 <= i < named.len() ==> net@.has_port((#[trigger] named[i]).1),
                self@ == old(self)@.recorded_ports(named.take(k as int), net@),
                self@.wf(),
                self@.identifiers.len() <= old(self)@.identifiers.len() + k,
                old(self)@.identifiers.len() + named.len() <= MAX_IDENTIFIERS,
            decreases list.len() - k,
        {
            let name = list[k].0;
            let port = list[k].1;
            proof {
                assert(net@.has_port(named[k as int].1));
                assert(named.take(k + 1).drop_last() =~= named.take(k as int));
                assert(named.take(k + 1).last() == named[k as int]);
                self@.lemma_recorded(
                    name@,
                    Type::Wire,
                    1,
                    seq![net@.ports[port.index() as int].value.char_spec()],
                );
            }
            let value = port.value(net);
            self.record(name, Type::Wire, 1, scalar_text(value));
            k = k + 1;
        }
        assert(named.take(k as int) =~= named);
    }

    /// Records a vector under a name at the current point in time. A name
    /// that is new becomes a register of the width of the vector.
    pub fn serialize_logivector(&mut self, identifier: &str, value: &LogicVector)
        requires
            old(self)@.knows(identifier@) || old(self)@.identifiers.len() < MAX_IDENTIFIERS,
        ensures
            final(self)@ == old(self)@.recorded(
                identifier@,
                Type::Register,
                value.spec_width(),
                value.text(),
            ),
            final(self)@.wf(),
    {
        self.record(identifier, Type::Register, value.width(), value.to_string());
    }

    /// Records a scalar under a name at the current point in time. A name
    /// that is new becomes a wire.
    pub fn serialize_ieee1164(&mut self, identifier: &str, value: Ieee1164)
        requires
            old(self)@.knows(identifier@) || old(self)@.identifiers.len() < MAX_IDENTIFIERS,
        ensures
            final(self)@ == old(self)@.recorded(
                identifier@,
                Type::Wire,
                1,
                seq![value.char_spec()],
            ),
            final(self)@.wf(),
    {
        self.record(identifier, Type::Wire, 1, scalar_text(value));
    }

    /// Whether a value can be recorded under the name: whether the name is
    /// known or a character is left for a new variable.
    pub fn can_record(&self, identifier: &str) -> (r: bool)
        ensures
            r == (self@.knows(identifier@) || self@.identifiers.len() < MAX_IDENTIFIERS),
    {
        let owned = String::from_str(identifier);
        let found = self.find(&owned);
        proof {
            if let Some(k) = found {
                assert(self@.identifiers[k as int].name == identifier@);
            }
        }
        found.is_some() || self.identifier.len() < MAX_IDENTIFIERS
    }

    /// The dump of what was recorded, with the given date in its head.
    pub fn render(&self, date: &str) -> (out: Vec<char>)
        ensures
            out@ == self@.text(date@),
    {
        proof {
            use_type_invariant(self);
        }
        let mut out: Vec<char> = Vec::new();
        push_text(&mut out, "$date\n ");
        push_text(&mut out, date);
        push_text(&mut out, "\n$end\n");
        push_text(&mut out, "$version\n Logical-rs VCD dumper\n$end\n");
        push_text(&mut out, "$timescale 1ps $end\n");
        push_text(&mut out, "$scope module ");
        push_text(&mut out, self.module_name.as_str());
        push_text(&mut out, " $end\n");
        let ghost head = out@;
        assert(head =~= Seq::<char>::empty() + "$date\n "@ + date@ + "\n$end\n"@
            + "$version\n Logical-rs VCD dumper\n$end\n"@ + "$timescale 1ps $end\n"@
            + "$scope module "@ + self@.module_name + " $end\n"@);
        let mut k: usize = 0;
        while k < self.identifier.len()
            invariant
                k <= self.identifier.len(),
                out@ == head + vars_text(self@.identifiers.take(k as int)),
            decreases self.identifier.len() - k,
        {
            let i = &self.identifier[k];
            let ghost before = out@;
            let ghost view = self@.identifiers[k as int];
            push_text(&mut out, "$var ");
            match i.ty {
                Type::Wire => push_text(&mut out, "wire"),
                Type::Register => push_text(&mut out, "reg"),
            }
            push_text(&mut out, " ");
            push_decimal(&mut out, i.width as u64);
            push_text(&mut out, " ");
            out.push(i.ident);
            push_text(&mut out, " ");
            push_text(&mut out, i.name.as_str());
            push_text(&mut out, " $end\n");
            proof {
                assert(out@ =~= before + var_line(view));
                assert(self@.identifiers.take(k + 1).drop_last() =~= self@.identifiers.take(k as int));
                assert(self@.identifiers.take(k + 1).last() == view);
                assert(out@ =~= head + vars_text(self@.identifiers.take(k + 1)));
            }
            k = k + 1;
        }
        assert(self@.identifiers.take(k as int) =~= self@.identifiers);
        push_text(&mut out, "$upscope $end\n");
        push_text(&mut out, "$enddefinitions $end\n");
        push_text(&mut out, "$dumpvars\n");
        let ghost middle = out@;
        let mut t: u32 = 0;
        let mut done = false;
        while !done
            invariant
                t <= self.timestamp,
                self@.wf(),
                !done ==> out@ == middle + dump_text(self@.records.take(t as int), self@.identifiers),
                done ==> out@ == middle + dump_text(self@.records, self@.identifiers),
            decreases self.timestamp - t + (if done { 0int } else { 1int }),
        {
            let ghost entries = self@.records[t as int];
            push_text(&mut out, "#");
            push_decimal(&mut out, t as u64);
            push_text(&mut out, "\n");
            let ghost stamped = out@;
            match self.tags.get(&t) {
                Some(list) => {
                    assert(entries == entries_view(*list));
                    let mut e: usize = 0;
                    while e < list.len()
                        invariant
                            e <= list.len(),
                            self@.wf(),
                            t <= self.timestamp,
                            entries == self@.records[t as int],
                            entries == entries_view(*list),
                            out@ == stamped + values_text(entries.take(e as int), self@.identifiers),
                        decreases list.len() - e,
                    {
                        let ghost line_start = out@;
                        let ghost entry = entries[e as int];
                        assert(entry.0 < self@.identifiers.len());
                        let i = &self.identifier[list[e].0];
                        let ghost view = self@.identifiers[entry.0 as int];
                        match i.ty {
                            Type::Wire => {
                                push_text(&mut out, list[e].1.as_str());
                                out.push(i.ident);
                                push_text(&mut out, "\n");
                            },
                            Type::Register => {
                                push_text(&mut out, "b");
                                push_text(&mut out, list[e].1.as_str());
                                push_text(&mut out, " ");
                                out.push(i.ident);
                                push_text(&mut out, "\n");
                            },
                        }
                        proof {
                            assert(out@ =~= line_start + value_line(view, entry.1));
                            assert(entries.take(e + 1).drop_last() =~= entries.take(e as int));
                            assert(entries.take(e + 1).last() == entry);
                            assert(out@ =~= stamped + values_text(
                                entries.take(e + 1),
                                self@.identifiers,
                            ));
                        }
                        e = e + 1;
                    }
                    assert(entries.take(e as int) =~= entries);
                },
                None => {
                    assert(entries.len() == 0);
                    assert(out@ =~= stamped + values_text(entries, self@.identifiers));
                },
            }
            proof {
                assert(self@.records.take(t + 1).drop_last() =~= self@.records.take(t as int));
                assert(self@.records.take(t + 1).last() == entries);
                assert(self@.records.take(t + 1).len() - 1 == t);
                assert(out@ =~= middle + dump_text(self@.records.take(t + 1), self@.identifiers));
            }
            if t == self.timestamp {
                done = true;
                assert(self@.records.take(t + 1) =~= self@.records);
            } else {
                t = t + 1;
            }
        }
        proof {
            assert(out@ =~= self@.text(date@));
        }
        out
    }
}

} // verus!
