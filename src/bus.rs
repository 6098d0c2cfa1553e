//! The interface through which the processor reaches memory and mapped devices.
use vstd::prelude::*;

verus! {

/// One access made by the processor through its interface: the address and the byte that was
/// read from it or written to it.
#[derive(Debug, Clone, Copy, PartialEq, Eq, Structural)]
pub enum BusAccess {
    Read(u16, u8),
    Write(u16, u8),
}

impl BusAccess {
    /// The address of the access.
    pub open spec fn address(self) -> u16 {
        match self {
            BusAccess::Read(a, _) => a,
            BusAccess::Write(a, _) => a,
        }
    }

    /// The byte carried by the access.
    pub open spec fn data(self) -> u8 {
        match self {
            BusAccess::Read(_, d) => d,
            BusAccess::Write(_, d) => d,
        }
    }
}

/// What the processor reads from and writes to.
///
/// The processor assumes nothing about what stands behind an address: a read may return any
/// byte and may have side effects. The contracts of the processor's functions describe each call
/// they make through the interface as an entry of the interface's access record.
pub trait Interface6502 {
    /// The accesses made through this interface so far, oldest first.
    ///
    /// A verified implementation (such as `ram::Ram`) defines the record so that `read` and
    /// `write` extend it as their contracts say. The default, an empty record, only lets implementations written
    /// outside verification (such as test doubles) compile; no proof about them is claimed.
    closed spec fn accesses(&self) -> Seq<BusAccess> {
        Seq::empty()
    }

    /// Reads a byte from the interface at the given address
    fn read(&mut self, address: u16) -> (data: u8)
        ensures
            final(self).accesses() == old(self).accesses().push(BusAccess::Read(address, data)),
    ;

    /// Writes a byte to the interface at the given address
    fn write(&mut self, address: u16, data: u8)
        ensures
            final(self).accesses() == old(self).accesses().push(BusAccess::Write(address, data)),
    ;
}

/// The byte carried by the `k`-th access made after the record `before`, in the record `after`.
pub open spec fn got(before: Seq<BusAccess>, after: Seq<BusAccess>, k: int) -> u8 {
    after[before.len() + k].data()
}

/// The 16-bit little-endian word made of a low and a high byte.
pub open spec fn word(lo: u8, hi: u8) -> u16 {
    (hi as int * 256 + lo as int) as u16
}

/// Reads a 16-bit little-endian word: the low byte at `address`, the high byte at the next
/// address (wrapping at the top of the address space).
pub fn read_16<B: Interface6502>(bus: &mut B, address: u16) -> (r: u16)
    ensures
        ({
            let (b, a) = (old(bus).accesses(), final(bus).accesses());
            &&& a == b + seq![
                BusAccess::Read(address, got(b, a, 0)),
                BusAccess::Read(address.wrapping_add(1), got(b, a, 1)),
            ]
            &&& r == word(got(b, a, 0), got(b, a, 1))
        }),
{
    let lo = bus.read(address);
    let hi = bus.read(address.wrapping_add(1));
    let ghost b = old(bus).accesses();
    assert(bus.accesses() =~= b + seq![
        BusAccess::Read(address, got(b, bus.accesses(), 0)),
        BusAccess::Read(address.wrapping_add(1), got(b, bus.accesses(), 1)),
    ]);
    make_word(lo, hi)
}

/// Joins a low and a high byte into a 16-bit word.
pub fn make_word(lo: u8, hi: u8) -> (r: u16)
    ensures
        r == word(lo, hi),
{
    let (l, h) = (lo as u16, hi as u16);
    let r = (h << 8u16) | l;
    assert(r == h * 256 + l) by (bit_vector)
        requires
            l < 256,
            h < 256,
            r == (h << 8u16) | l,
    ;
    r
}

} // verus!
