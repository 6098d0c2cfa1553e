//! The addressing modes: each reads its operand bytes after the opcode, advances the program
//! counter past them, and says where the instruction's operand lies. The indexed modes add one
//! cycle to the instruction when the index moves the address onto another page, except for their
//! constant-time variants.
use crate::bus::{got, make_word, read_16, word, BusAccess, Interface6502};
use crate::cpu::MOS6502;
use vstd::prelude::*;

verus! {

/// Where an instruction's operand lies, as resolved by its addressing mode.
#[derive(Debug, Clone, Copy, PartialEq, Eq, Structural)]
pub enum AddressModeValue {
    /// No operand, or the accumulator
    Implied,
    /// A signed branch offset, not yet applied to the program counter
    RelativeAddress(u8),
    /// The effective address of the operand
    AbsoluteAddress(u16),
}

impl AddressModeValue {
    /// The effective address of an operand that has one.
    pub fn address(self) -> (r: u16)
        requires
            self is AbsoluteAddress,
        ensures
            r == self->AbsoluteAddress_0,
    {
        match self {
            AddressModeValue::AbsoluteAddress(address) => address,
            _ => 0,
        }
    }

    /// The branch offset of a relative operand.
    pub fn offset(self) -> (r: u8)
        requires
            self is RelativeAddress,
        ensures
            r == self->RelativeAddress_0,
    {
        match self {
            AddressModeValue::RelativeAddress(offset) => offset,
            _ => 0,
        }
    }
}

/// The page (the high byte) of an address.
pub open spec fn page(address: u16) -> int {
    address as int / 256
}

/// The cycles added by an indexed access that went from `base` to `target`: one when the two lie
/// on different pages.
pub open spec fn page_penalty(base: u16, target: u16) -> u8 {
    if page(base) != page(target) {
        1
    } else {
        0
    }
}

/// Whether two addresses lie on different pages.
pub fn page_crossed(a: u16, b: u16) -> (r: bool)
    ensures
        r == (page(a) != page(b)),
{
    let r = a & 0xff00u16 != b & 0xff00u16;
    assert(r == (a / 256 != b / 256)) by (bit_vector)
        requires
            r == (a & 0xff00u16 != b & 0xff00u16),
    ;
    r
}

/// The state after an addressing mode that read `width` operand bytes.
pub open spec fn advanced(cpu: MOS6502, width: u16) -> MOS6502 {
    MOS6502 { program_counter: cpu.program_counter.wrapping_add(width), ..cpu }
}

/// The state after an indexed addressing mode of `width` operand bytes that went from `base` to
/// `target`, with its page-crossing cycle.
pub open spec fn advanced_indexed(cpu: MOS6502, width: u16, base: u16, target: u16) -> MOS6502 {
    MOS6502 {
        program_counter: cpu.program_counter.wrapping_add(width),
        remaining_cycles: (cpu.remaining_cycles + page_penalty(base, target)) as u8,
        ..cpu
    }
}

/// The two reads of a 16-bit operand at the program counter.
pub open spec fn operand_16_reads(pc: u16, lo: u8, hi: u8) -> Seq<BusAccess> {
    seq![BusAccess::Read(pc, lo), BusAccess::Read(pc.wrapping_add(1), hi)]
}

/// The addressing modes.
#[derive(Debug, Clone, Copy, PartialEq, Eq, Structural)]
pub enum AddressMode {
    Absolute,
    AbsoluteX,
    AbsoluteXConst,
    AbsoluteY,
    AbsoluteYConst,
    Immediate,
    Implied,
    Indirect,
    IndirectX,
    IndirectY,
    IndirectYConst,
    Relative,
    ZeroPage,
    ZeroPageX,
    ZeroPageY,
}

/// What the addressing mode `mode` does: from the state `before` and the access record `b` to
/// the state `after`, the record `a` and the resolved operand `r`.
#[verifier::opaque]
pub open spec fn resolves(
    mode: AddressMode,
    b: Seq<BusAccess>,
    a: Seq<BusAccess>,
    before: MOS6502,
    after: MOS6502,
    r: AddressModeValue,
) -> bool {
    match mode {
        AddressMode::Absolute => ({
            &&& a == b + operand_16_reads(before.program_counter, got(b, a, 0), got(b, a, 1))
            &&& r == AddressModeValue::AbsoluteAddress(word(got(b, a, 0), got(b, a, 1)))
            &&& after == advanced(before, 2)
        }),
        AddressMode::AbsoluteX => ({
            let base = word(got(b, a, 0), got(b, a, 1));
            let target = base.wrapping_add(before.x_register as u16);
            &&& a == b + operand_16_reads(before.program_counter, got(b, a, 0), got(b, a, 1))
            &&& r == AddressModeValue::AbsoluteAddress(target)
            &&& after == advanced_indexed(before, 2, base, target)
        }),
        AddressMode::AbsoluteXConst => ({
            let base = word(got(b, a, 0), got(b, a, 1));
            &&& a == b + operand_16_reads(before.program_counter, got(b, a, 0), got(b, a, 1))
            &&& r == AddressModeValue::AbsoluteAddress(base.wrapping_add(before.x_register as u16))
            &&& after == advanced(before, 2)
        }),
        AddressMode::AbsoluteY => ({
            let base = word(got(b, a, 0), got(b, a, 1));
            let target = base.wrapping_add(before.y_register as u16);
            &&& a == b + operand_16_reads(before.program_counter, got(b, a, 0), got(b, a, 1))
            &&& r == AddressModeValue::AbsoluteAddress(target)
            &&& after == advanced_indexed(before, 2, base, target)
        }),
        AddressMode::AbsoluteYConst => ({
            let base = word(got(b, a, 0), got(b, a, 1));
            &&& a == b + operand_16_reads(before.program_counter, got(b, a, 0), got(b, a, 1))
            &&& r == AddressModeValue::AbsoluteAddress(base.wrapping_add(before.y_register as u16))
            &&& after == advanced(before, 2)
        }),
        AddressMode::Immediate => {
            &&& a == b
            &&& r == AddressModeValue::AbsoluteAddress(before.program_counter)
            &&& after == advanced(before, 1)
        },
        AddressMode::Implied => {
            &&& a == b
            &&& r == AddressModeValue::Implied
            &&& after == before
        },
        AddressMode::Indirect => ({
            let pointer = word(got(b, a, 0), got(b, a, 1));
            &&& a == b + operand_16_reads(before.program_counter, got(b, a, 0), got(b, a, 1))
                + seq![
                BusAccess::Read(indirect_high_address(pointer), got(b, a, 2)),
                BusAccess::Read(pointer, got(b, a, 3)),
            ]
            &&& r == AddressModeValue::AbsoluteAddress(word(got(b, a, 3), got(b, a, 2)))
            &&& after == advanced(before, 2)
        }),
        AddressMode::IndirectX => ({
            let pointer = got(b, a, 0).wrapping_add(before.x_register);
            &&& a == b + seq![BusAccess::Read(before.program_counter, got(b, a, 0))]
                + zero_page_pointer_reads(pointer, got(b, a, 2), got(b, a, 1))
            &&& r == AddressModeValue::AbsoluteAddress(word(got(b, a, 2), got(b, a, 1)))
            &&& after == advanced(before, 1)
        }),
        AddressMode::IndirectY => ({
            let base = word(got(b, a, 2), got(b, a, 1));
            let target = base.wrapping_add(before.y_register as u16);
            &&& a == b + seq![BusAccess::Read(before.program_counter, got(b, a, 0))]
                + zero_page_pointer_reads(got(b, a, 0), got(b, a, 2), got(b, a, 1))
            &&& r == AddressModeValue::AbsoluteAddress(target)
            &&& after == advanced_indexed(before, 1, base, target)
        }),
        AddressMode::IndirectYConst => ({
            let base = word(got(b, a, 2), got(b, a, 1));
            &&& a == b + seq![BusAccess::Read(before.program_counter, got(b, a, 0))]
                + zero_page_pointer_reads(got(b, a, 0), got(b, a, 2), got(b, a, 1))
            &&& r == AddressModeValue::AbsoluteAddress(base.wrapping_add(before.y_register as u16))
            &&& after == advanced(before, 1)
        }),
        AddressMode::Relative => ({
            &&& a == b.push(BusAccess::Read(before.program_counter, got(b, a, 0)))
            &&& r == AddressModeValue::RelativeAddress(got(b, a, 0))
            &&& after == advanced(before, 1)
        }),
        AddressMode::ZeroPage => ({
            &&& a == b.push(BusAccess::Read(before.program_counter, got(b, a, 0)))
            &&& r == AddressModeValue::AbsoluteAddress(got(b, a, 0) as u16)
            &&& after == advanced(before, 1)
        }),
        AddressMode::ZeroPageX => ({
            &&& a == b.push(BusAccess::Read(before.program_counter, got(b, a, 0)))
            &&& r == AddressModeValue::AbsoluteAddress(
                got(b, a, 0).wrapping_add(before.x_register) as u16,
            )
            &&& after == advanced(before, 1)
        }),
        AddressMode::ZeroPageY => ({
            &&& a == b.push(BusAccess::Read(before.program_counter, got(b, a, 0)))
            &&& r == AddressModeValue::AbsoluteAddress(
                got(b, a, 0).wrapping_add(before.y_register) as u16,
            )
            &&& after == advanced(before, 1)
        }),
    }
}

/// Absolute: Address mode returning a 16-bit absolute address
pub fn absolute<B: Interface6502>(cpu: &mut MOS6502, bus: &mut B) -> (r: AddressModeValue)
    ensures
        resolves(AddressMode::Absolute, old(bus).accesses(), final(bus).accesses(), *old(cpu), *final(cpu), r),
{
    reveal(resolves);
    let address = read_16(bus, cpu.program_counter);
    cpu.program_counter = cpu.program_counter.wrapping_add(2);
    AddressModeValue::AbsoluteAddress(address)
}

/// Absolute X: Address mode returning a 16-bit absolute address offset by the x register
pub fn absolute_x<B: Interface6502>(cpu: &mut MOS6502, bus: &mut B) -> (r: AddressModeValue)
    requires
        old(cpu).remaining_cycles < 255,
    ensures
        resolves(AddressMode::AbsoluteX, old(bus).accesses(), final(bus).accesses(), *old(cpu), *final(cpu), r),
{
    reveal(resolves);
    let address = read_16(bus, cpu.program_counter);
    let offset_address = address.wrapping_add(cpu.x_register as u16);
    if page_crossed(address, offset_address) {
        cpu.remaining_cycles = cpu.remaining_cycles + 1;
    }
    cpu.program_counter = cpu.program_counter.wrapping_add(2);
    AddressModeValue::AbsoluteAddress(offset_address)
}

/// Absolute X, for the instructions that take the same number of cycles whether or not the
/// index crosses a page boundary.
pub fn absolute_x_const<B: Interface6502>(cpu: &mut MOS6502, bus: &mut B) -> (r: AddressModeValue)
    ensures
        resolves(AddressMode::AbsoluteXConst, old(bus).accesses(), final(bus).accesses(), *old(cpu), *final(cpu), r),
{
    reveal(resolves);
    let address = read_16(bus, cpu.program_counter);
    let offset_address = address.wrapping_add(cpu.x_register as u16);
    cpu.program_counter = cpu.program_counter.wrapping_add(2);
    AddressModeValue::AbsoluteAddress(offset_address)
}

/// Absolute Y: Address mode returning a 16-bit absolute address offset by the y register
pub fn absolute_y<B: Interface6502>(cpu: &mut MOS6502, bus: &mut B) -> (r: AddressModeValue)
    requires
        old(cpu).remaining_cycles < 255,
    ensures
        resolves(AddressMode::AbsoluteY, old(bus).accesses(), final(bus).accesses(), *old(cpu), *final(cpu), r),
{
    reveal(resolves);
    let address = read_16(bus, cpu.program_counter);
    let offset_address = address.wrapping_add(cpu.y_register as u16);
    if page_crossed(address, offset_address) {
        cpu.remaining_cycles = cpu.remaining_cycles + 1;
    }
    cpu.program_counter = cpu.program_counter.wrapping_add(2);
    AddressModeValue::AbsoluteAddress(offset_address)
}

/// Absolute Y, for the instructions that take the same number of cycles whether or not the
/// index crosses a page boundary.
pub fn absolute_y_const<B: Interface6502>(cpu: &mut MOS6502, bus: &mut B) -> (r: AddressModeValue)
    ensures
        resolves(AddressMode::AbsoluteYConst, old(bus).accesses(), final(bus).accesses(), *old(cpu), *final(cpu), r),
{
    reveal(resolves);
    let address = read_16(bus, cpu.program_counter);
    let offset_address = address.wrapping_add(cpu.y_register as u16);
    cpu.program_counter = cpu.program_counter.wrapping_add(2);
    AddressModeValue::AbsoluteAddress(offset_address)
}

/// Immediate: the operand is the byte at the program counter
pub fn immediate<B: Interface6502>(cpu: &mut MOS6502, bus: &mut B) -> (r: AddressModeValue)
    ensures
        resolves(AddressMode::Immediate, old(bus).accesses(), final(bus).accesses(), *old(cpu), *final(cpu), r),
{
    reveal(resolves);
    let address = cpu.program_counter;
    cpu.program_counter = cpu.program_counter.wrapping_add(1);
    AddressModeValue::AbsoluteAddress(address)
}

/// Implied: Address mode for opcodes that do not require a value or address
pub fn implied<B: Interface6502>(cpu: &mut MOS6502, bus: &mut B) -> (r: AddressModeValue)
    ensures
        resolves(AddressMode::Implied, old(bus).accesses(), final(bus).accesses(), *old(cpu), *final(cpu), r),
{
    reveal(resolves);
    AddressModeValue::Implied
}

/// The address from which the indirect mode fetches the high byte of its target: the byte after
/// the pointer, except that a pointer at the end of a page wraps to the start of the same page.
pub open spec fn indirect_high_address(pointer: u16) -> u16 {
    (pointer & 0xff00u16) | (pointer.wrapping_add(1) & 0x00ffu16)
}

/// Indirect: reads a pointer, then the target address it points to, reproducing the hardware's
/// wrap within the pointer's page when the pointer's low byte is 0xFF
pub fn indirect<B: Interface6502>(cpu: &mut MOS6502, bus: &mut B) -> (r: AddressModeValue)
    ensures
        resolves(AddressMode::Indirect, old(bus).accesses(), final(bus).accesses(), *old(cpu), *final(cpu), r),
{
    reveal(resolves);
    let indirect_address = read_16(bus, cpu.program_counter);
    let page = indirect_address & 0xff00u16;
    let hi = bus.read(page | (indirect_address.wrapping_add(1) & 0x00ffu16));
    let lo = bus.read(indirect_address);
    let ghost (b, a) = (old(bus).accesses(), bus.accesses());
    assert(a =~= b + operand_16_reads(old(cpu).program_counter, got(b, a, 0), got(b, a, 1))
        + seq![
        BusAccess::Read(indirect_high_address(indirect_address), got(b, a, 2)),
        BusAccess::Read(indirect_address, got(b, a, 3)),
    ]);
    cpu.program_counter = cpu.program_counter.wrapping_add(2);
    AddressModeValue::AbsoluteAddress(make_word(lo, hi))
}

/// The reads of a zero-page pointer at `pointer`: the high byte first, then the low byte, both
/// wrapping within page zero.
pub open spec fn zero_page_pointer_reads(pointer: u8, lo: u8, hi: u8) -> Seq<BusAccess> {
    seq![
        BusAccess::Read(pointer.wrapping_add(1) as u16, hi),
        BusAccess::Read(pointer as u16, lo),
    ]
}

/// Indirect X: reads a zero-page pointer, offsets it by x within page zero, and reads the target
/// address there
pub fn indirect_x<B: Interface6502>(cpu: &mut MOS6502, bus: &mut B) -> (r: AddressModeValue)
    ensures
        resolves(AddressMode::IndirectX, old(bus).accesses(), final(bus).accesses(), *old(cpu), *final(cpu), r),
{
    reveal(resolves);
    let indirect_address = bus.read(cpu.program_counter);
    let pointer = indirect_address.wrapping_add(cpu.x_register);
    let hi = bus.read(pointer.wrapping_add(1) as u16);
    let lo = bus.read(pointer as u16);
    let ghost (b, a) = (old(bus).accesses(), bus.accesses());
    assert(a =~= b + seq![BusAccess::Read(old(cpu).program_counter, got(b, a, 0))]
        + zero_page_pointer_reads(pointer, got(b, a, 2), got(b, a, 1)));
    cpu.program_counter = cpu.program_counter.wrapping_add(1);
    AddressModeValue::AbsoluteAddress(make_word(lo, hi))
}

/// Indirect Y: reads a zero-page pointer, reads the address it points to (wrapping within page
/// zero), and offsets that address by y
pub fn indirect_y<B: Interface6502>(cpu: &mut MOS6502, bus: &mut B) -> (r: AddressModeValue)
    requires
        old(cpu).remaining_cycles < 255,
    ensures
        resolves(AddressMode::IndirectY, old(bus).accesses(), final(bus).accesses(), *old(cpu), *final(cpu), r),
{
    reveal(resolves);
    let indirect_address = bus.read(cpu.program_counter);
    let hi = bus.read(indirect_address.wrapping_add(1) as u16);
    let lo = bus.read(indirect_address as u16);
    let ghost (b, a) = (old(bus).accesses(), bus.accesses());
    assert(a =~= b + seq![BusAccess::Read(old(cpu).program_counter, got(b, a, 0))]
        + zero_page_pointer_reads(indirect_address, got(b, a, 2), got(b, a, 1)));
    let address = make_word(lo, hi);
    let offset_address = address.wrapping_add(cpu.y_register as u16);
    if page_crossed(address, offset_address) {
        cpu.remaining_cycles = cpu.remaining_cycles + 1;
    }
    cpu.program_counter = cpu.program_counter.wrapping_add(1);
    AddressModeValue::AbsoluteAddress(offset_address)
}

/// Indirect Y, for the instructions that take the same number of cycles whether or not the
/// index crosses a page boundary.
pub fn indirect_y_const<B: Interface6502>(cpu: &mut MOS6502, bus: &mut B) -> (r: AddressModeValue)
    ensures
        resolves(AddressMode::IndirectYConst, old(bus).accesses(), final(bus).accesses(), *old(cpu), *final(cpu), r),
{
    reveal(resolves);
    let indirect_address = bus.read(cpu.program_counter);
    let hi = bus.read(indirect_address.wrapping_add(1) as u16);
    let lo = bus.read(indirect_address as u16);
    let ghost (b, a) = (old(bus).accesses(), bus.accesses());
    assert(a =~= b + seq![BusAccess::Read(old(cpu).program_counter, got(b, a, 0))]
        + zero_page_pointer_reads(indirect_address, got(b, a, 2), got(b, a, 1)));
    let address = make_word(lo, hi);
    cpu.program_counter = cpu.program_counter.wrapping_add(1);
    AddressModeValue::AbsoluteAddress(address.wrapping_add(cpu.y_register as u16))
}

/// Relative: reads the signed 8-bit offset of a branch
pub fn relative<B: Interface6502>(cpu: &mut MOS6502, bus: &mut B) -> (r: AddressModeValue)
    ensures
        resolves(AddressMode::Relative, old(bus).accesses(), final(bus).accesses(), *old(cpu), *final(cpu), r),
{
    reveal(resolves);
    let relative_address = bus.read(cpu.program_counter);
    cpu.program_counter = cpu.program_counter.wrapping_add(1);
    AddressModeValue::RelativeAddress(relative_address)
}

/// Zero-page: reads an 8-bit address on page zero
pub fn zero_page<B: Interface6502>(cpu: &mut MOS6502, bus: &mut B) -> (r: AddressModeValue)
    ensures
        resolves(AddressMode::ZeroPage, old(bus).accesses(), final(bus).accesses(), *old(cpu), *final(cpu), r),
{
    reveal(resolves);
    let address = bus.read(cpu.program_counter);
    cpu.program_counter = cpu.program_counter.wrapping_add(1);
    AddressModeValue::AbsoluteAddress(address as u16)
}

/// Zero-page X: reads an 8-bit address on page zero and offsets it by x, staying on page zero
pub fn zero_page_x<B: Interface6502>(cpu: &mut MOS6502, bus: &mut B) -> (r: AddressModeValue)
    ensures
        resolves(AddressMode::ZeroPageX, old(bus).accesses(), final(bus).accesses(), *old(cpu), *final(cpu), r),
{
    reveal(resolves);
    let address = bus.read(cpu.program_counter).wrapping_add(cpu.x_register);
    cpu.program_counter = cpu.program_counter.wrapping_add(1);
    AddressModeValue::AbsoluteAddress(address as u16)
}

/// Zero-page Y: reads an 8-bit address on page zero and offsets it by y, staying on page zero
pub fn zero_page_y<B: Interface6502>(cpu: &mut MOS6502, bus: &mut B) -> (r: AddressModeValue)
    ensures
        resolves(AddressMode::ZeroPageY, old(bus).accesses(), final(bus).accesses(), *old(cpu), *final(cpu), r),
{
    reveal(resolves);
    let address = bus.read(cpu.program_counter).wrapping_add(cpu.y_register);
    cpu.program_counter = cpu.program_counter.wrapping_add(1);
    AddressModeValue::AbsoluteAddress(address as u16)
}

} // verus!
