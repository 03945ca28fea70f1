//! A read-only memory of 1024 bytes.

use vstd::prelude::*;
use crate::logicbit::ieee1164::Ieee1164;
use crate::logicbit::logicvector::LogicVector;
use crate::network::{Network, NetworkState};
use crate::port::portconnector::PortConnector;
use crate::port::portdirection::{Input, Output};
use crate::port::pport::Port;

verus! {

/// A read-only memory of 1024 bytes, with an address of 10 bits, data of 8
/// bits, and two control lines that are active when low.
///
/// The control lines are scalars and live in a network of scalars; address
/// and data are vectors and live in a network of vectors.
#[derive(Debug)]
pub struct Rom1kx8 {
    /// The bytes of the memory.
    pub memory: [u8; 1024],
    /// The address of the byte to put out.
    pub addr: Port<LogicVector, Input>,
    /// The byte at the address.
    pub data: Port<LogicVector, Output>,
    /// Chip select, active when low.
    pub n_chip_select: Port<Ieee1164, Input>,
    /// Output enable, active when low.
    pub n_output_enable: Port<Ieee1164, Input>,
}

impl Clone for Rom1kx8 {
    fn clone(&self) -> (r: Self)
        ensures
            r == *self,
    {
        *self
    }
}

impl Copy for Rom1kx8 {

}

impl Rom1kx8 {
    /// Whether the ports of the memory are still around.
    pub open spec fn ready(&self, bits: NetworkState<Ieee1164>, vectors: NetworkState<LogicVector>) -> bool {
        &&& bits.has_port(self.n_chip_select.index())
        &&& bits.has_port(self.n_output_enable.index())
        &&& vectors.has_port(self.addr.index())
        &&& vectors.has_port(self.data.index())
    }

    /// Creates a memory of the given bytes, with ports of its own: an
    /// uninitialized address of 10 bits, uninitialized data of 8 bits, and
    /// uninitialized control lines.
    pub fn with_memory(
        bits: &mut Network<Ieee1164>,
        vectors: &mut Network<LogicVector>,
        memory: [u8; 1024],
    ) -> (rom: Self)
        requires
            old(bits)@.consistent(),
            old(vectors)@.consistent(),
        ensures
            rom.memory == memory,
            final(bits)@ == old(bits)@.with_port(Ieee1164::_U()).with_port(Ieee1164::_U()),
            final(vectors)@ == old(vectors)@.with_port(
                LogicVector::uniform_spec(Ieee1164::_U(), 10),
            ).with_port(LogicVector::uniform_spec(Ieee1164::_U(), 8)),
            final(bits)@.consistent(),
            final(vectors)@.consistent(),
            rom.ready(final(bits)@, final(vectors)@),
            rom.n_chip_select.index() == old(bits)@.ports.len(),
            rom.n_output_enable.index() == old(bits)@.ports.len() + 1,
            rom.addr.index() == old(vectors)@.ports.len(),
            rom.data.index() == old(vectors)@.ports.len() + 1,
    {
        let blank_addr = LogicVector::from_ieee_value(Ieee1164::_U(), 10);
        let blank_data = LogicVector::from_ieee_value(Ieee1164::_U(), 8);
        proof {
            bits@.lemma_with_port(Ieee1164::_U());
            bits@.with_port(Ieee1164::_U()).lemma_with_port(Ieee1164::_U());
            vectors@.lemma_with_port(blank_addr);
            vectors@.with_port(blank_addr).lemma_with_port(blank_data);
        }
        let addr = Port::new(vectors, blank_addr);
        let data = Port::new(vectors, blank_data);
        let n_chip_select = Port::new(bits, Ieee1164::_U());
        let n_output_enable = Port::new(bits, Ieee1164::_U());
        Rom1kx8 { memory, addr, data, n_chip_select, n_output_enable }
    }

    /// Creates a memory of zeros.
    pub fn default(bits: &mut Network<Ieee1164>, vectors: &mut Network<LogicVector>) -> (rom: Self)
        requires
            old(bits)@.consistent(),
            old(vectors)@.consistent(),
        ensures
            forall|k: int| 0 <= k < 1024 ==> rom.memory[k] == 0,
            final(bits)@ == old(bits)@.with_port(Ieee1164::_U()).with_port(Ieee1164::_U()),
            final(vectors)@ == old(vectors)@.with_port(
                LogicVector::uniform_spec(Ieee1164::_U(), 10),
            ).with_port(LogicVector::uniform_spec(Ieee1164::_U(), 8)),
            final(bits)@.consistent(),
            final(vectors)@.consistent(),
            rom.ready(final(bits)@, final(vectors)@),
    {
        Self::with_memory(bits, vectors, [0u8; 1024])
    }

    /// Creates a memory of the first 1024 of the given bytes.
    pub fn from_iter(
        bits: &mut Network<Ieee1164>,
        vectors: &mut Network<LogicVector>,
        bytes: &Vec<u8>,
    ) -> (rom: Self)
        requires
            old(bits)@.consistent(),
            old(vectors)@.consistent(),
            bytes@.len() >= 1024,
        ensures
            forall|k: int| 0 <= k < 1024 ==> rom.memory[k] == bytes@[k],
            final(bits)@ == old(bits)@.with_port(Ieee1164::_U()).with_port(Ieee1164::_U()),
            final(vectors)@ == old(vectors)@.with_port(
                LogicVector::uniform_spec(Ieee1164::_U(), 10),
            ).with_port(LogicVector::uniform_spec(Ieee1164::_U(), 8)),
            final(bits)@.consistent(),
            final(vectors)@.consistent(),
            rom.ready(final(bits)@, final(vectors)@),
    {
        let mut memory = [0u8; 1024];
        let mut k: usize = 0;
        while k < 1024
            invariant
                k <= 1024,
                bytes@.len() >= 1024,
                forall|i: int| 0 <= i < k ==> memory[i] == bytes@[i],
            decreases 1024 - k,
        {
            memory[k] = bytes[k];
            k = k + 1;
        }
        Self::with_memory(bits, vectors, memory)
    }

    /// The value that the memory puts out, of the width that the data port
    /// has.
    ///
    /// A control line that is neither low nor high gives `X` on every bit,
    /// a control line that is high gives high impedance on every bit.
    /// With both lines low the output is the byte at the address; where the
    /// address spells no number below 1024, or the byte does not fit the
    /// data port, it is `X` on every bit.
    pub open spec fn output(
        &self,
        bits: NetworkState<Ieee1164>,
        vectors: NetworkState<LogicVector>,
    ) -> LogicVector {
        let ncs = bits.ports[self.n_chip_select.index() as int].value;
        let noe = bits.ports[self.n_output_enable.index() as int].value;
        let addr = vectors.ports[self.addr.index() as int].value;
        let width = vectors.ports[self.data.index() as int].value.spec_width();
        if !(ncs.low() || ncs.high()) || !(noe.low() || noe.high()) {
            LogicVector::uniform_spec(Ieee1164::_X(), width)
        } else if ncs.high() || noe.high() {
            LogicVector::uniform_spec(Ieee1164::_Z(), width)
        } else {
            match addr.int_value() {
                Some(a) => if a < 1024 && LogicVector::fits(self.memory[a as int] as u128, width as int) {
                    LogicVector::from_int_spec(self.memory[a as int] as u128, width).unwrap()
                } else {
                    LogicVector::uniform_spec(Ieee1164::_X(), width)
                },
                None => LogicVector::uniform_spec(Ieee1164::_X(), width),
            }
        }
    }

    /// Puts out the byte at the address, or what the control lines ask
    /// for, and says whether the data changed.
    pub fn update(&self, bits: &Network<Ieee1164>, vectors: &mut Network<LogicVector>) -> (changed: bool)
        requires
            old(vectors)@.consistent(),
            self.ready(bits@, old(vectors)@),
        ensures
            final(vectors)@ == old(vectors)@.with_value(
                self.data.index(),
                self.output(bits@, old(vectors)@),
            ),
            changed == (old(vectors)@.ports[self.data.index() as int].value != self.output(
                bits@,
                old(vectors)@,
            )),
            final(vectors)@.consistent(),
            final(vectors)@.same_population(old(vectors)@),
    {
        let ncs = self.n_chip_select.value(bits);
        let noe = self.n_output_enable.value(bits);
        let addr = self.addr.value(vectors);
        let width = PortConnector::<LogicVector, Input>::from_id(self.data.id()).value(
            vectors,
        ).unwrap().width();
        let value = if ncs.is_UXZ() || noe.is_UXZ() {
            LogicVector::from_ieee_value(Ieee1164::_X(), width)
        } else if ncs.is_1H() || noe.is_1H() {
            LogicVector::from_ieee_value(Ieee1164::_Z(), width)
        } else {
            let byte = match addr.as_u128() {
                Some(a) => if a < 1024 {
                    LogicVector::from_int_value(self.memory[a as usize] as u128, width)
                } else {
                    None
                },
                None => None,
            };
            match byte {
                Some(v) => v,
                None => LogicVector::from_ieee_value(Ieee1164::_X(), width),
            }
        };
        proof {
            vectors@.lemma_with_value(self.data.index(), value);
        }
        let before = self.data.replace(vectors, value);
        before != value
    }
}

} // verus!
