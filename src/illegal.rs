//! The undocumented opcodes. Most combine two documented instructions on the same operand, each
//! making its own accesses. They act only when the processor's `illegal_opcodes_enabled` option
//! is on; otherwise they change nothing and touch no memory, and spend only their cycles.
use crate::address_modes::AddressModeValue;
use crate::bus::{got, BusAccess, Interface6502};
use crate::cpu::{with_flag, StatusFlag, MOS6502};
use crate::opcodes::{
    adc, add_with_carry, and, asl, carry_in, cmp, compare, compared, dec, eor, flags_of_result,
    inc, is_negative, lda, ldx, load_accumulator, load_x, lsr, ora, overflow, rol, ror,
    rotate_left, rotate_right, sbc, shift_left, shift_right, shifted, subtract_with_carry, txa, zn,
};
use vstd::prelude::*;

verus! {

/// The contract of an undocumented opcode: when the option is off nothing changes and nothing
/// is accessed; when it is on, `acts` holds.
pub open spec fn gated<B: Interface6502>(b: B, a: B, before: MOS6502, after: MOS6502, acts: bool) -> bool {
    if before.illegal_opcodes_enabled {
        acts
    } else {
        a.accesses() == b.accesses() && after == before
    }
}

/// `a` is `b` followed by a read at `address`, a write of `f` of the byte read, and a second
/// read at `address`; and the state is `next` of the two bytes read.
pub open spec fn modifies_then_reads<B: Interface6502>(
    b: B,
    a: B,
    address: u16,
    before: MOS6502,
    after: MOS6502,
    f: spec_fn(u8) -> u8,
    next: spec_fn(MOS6502, u8, u8) -> MOS6502,
) -> bool {
    let (b, a) = (b.accesses(), a.accesses());
    &&& a == b + seq![
        BusAccess::Read(address, got(b, a, 0)),
        BusAccess::Write(address, f(got(b, a, 0))),
        BusAccess::Read(address, got(b, a, 2)),
    ]
    &&& after == next(before, got(b, a, 0), got(b, a, 2))
}

/// `a` is `b` followed by two reads at `address`; and the state is `next` of the two bytes.
pub open spec fn reads_twice<B: Interface6502>(
    b: B,
    a: B,
    address: u16,
    before: MOS6502,
    after: MOS6502,
    next: spec_fn(MOS6502, u8, u8) -> MOS6502,
) -> bool {
    let (b, a) = (b.accesses(), a.accesses());
    &&& a == b + seq![BusAccess::Read(address, got(b, a, 0)), BusAccess::Read(address, got(b, a, 1))]
    &&& after == next(before, got(b, a, 0), got(b, a, 1))
}

/// The record after three accesses that were made as a read-modify-write followed by a read.
proof fn lemma_three(b0: Seq<BusAccess>, b1: Seq<BusAccess>, b2: Seq<BusAccess>, address: u16, data: u8)
    requires
        b1 == b0 + seq![BusAccess::Read(address, got(b0, b1, 0)), BusAccess::Write(address, data)],
        b2 == b1.push(BusAccess::Read(address, got(b1, b2, 0))),
    ensures
        b2 == b0 + seq![
            BusAccess::Read(address, got(b0, b2, 0)),
            BusAccess::Write(address, data),
            BusAccess::Read(address, got(b0, b2, 2)),
        ],
{
    assert(got(b0, b2, 0) == got(b0, b1, 0));
    assert(b2 =~= b0 + seq![
        BusAccess::Read(address, got(b0, b2, 0)),
        BusAccess::Write(address, data),
        BusAccess::Read(address, got(b0, b2, 2)),
    ]);
}

/// SLO: Combines the ASL and ORA opcodes
pub fn slo<B: Interface6502>(cpu: &mut MOS6502, bus: &mut B, address_mode_value: AddressModeValue)
    requires
        address_mode_value is AbsoluteAddress,
    ensures
        gated(*old(bus), *final(bus), *old(cpu), *final(cpu), modifies_then_reads(
            *old(bus),
            *final(bus),
            address_mode_value->AbsoluteAddress_0,
            *old(cpu),
            *final(cpu),
            |v: u8| shift_left(v).0,
            |c: MOS6502, v1: u8, v2: u8| {
                let s = shifted(c, shift_left(v1), false);
                load_accumulator(s, s.accumulator | v2)
            },
        )),
{
    if cpu.illegal_opcodes_enabled {
        let ghost b0 = bus.accesses();
        asl(cpu, bus, address_mode_value);
        let ghost b1 = bus.accesses();
        ora(cpu, bus, address_mode_value);
        proof {
            lemma_three(b0, b1, bus.accesses(), address_mode_value->AbsoluteAddress_0, shift_left(got(b0, b1, 0)).0);
        }
    }
}

/// RLA: Combines the ROL and AND opcodes
pub fn rla<B: Interface6502>(cpu: &mut MOS6502, bus: &mut B, address_mode_value: AddressModeValue)
    requires
        address_mode_value is AbsoluteAddress,
    ensures
        gated(*old(bus), *final(bus), *old(cpu), *final(cpu), modifies_then_reads(
            *old(bus),
            *final(bus),
            address_mode_value->AbsoluteAddress_0,
            *old(cpu),
            *final(cpu),
            |v: u8| rotate_left(v, carry_in(*old(cpu))).0,
            |c: MOS6502, v1: u8, v2: u8| {
                let s = shifted(c, rotate_left(v1, carry_in(c)), false);
                load_accumulator(s, s.accumulator & v2)
            },
        )),
{
    if cpu.illegal_opcodes_enabled {
        let ghost b0 = bus.accesses();
        rol(cpu, bus, address_mode_value);
        let ghost b1 = bus.accesses();
        and(cpu, bus, address_mode_value);
        proof {
            lemma_three(b0, b1, bus.accesses(), address_mode_value->AbsoluteAddress_0, rotate_left(got(b0, b1, 0), carry_in(*old(cpu))).0);
        }
    }
}

/// SRE: Combines the LSR and EOR opcodes
pub fn sre<B: Interface6502>(cpu: &mut MOS6502, bus: &mut B, address_mode_value: AddressModeValue)
    requires
        address_mode_value is AbsoluteAddress,
    ensures
        gated(*old(bus), *final(bus), *old(cpu), *final(cpu), modifies_then_reads(
            *old(bus),
            *final(bus),
            address_mode_value->AbsoluteAddress_0,
            *old(cpu),
            *final(cpu),
            |v: u8| shift_right(v).0,
            |c: MOS6502, v1: u8, v2: u8| {
                let s = shifted(c, shift_right(v1), false);
                load_accumulator(s, s.accumulator ^ v2)
            },
        )),
{
    if cpu.illegal_opcodes_enabled {
        let ghost b0 = bus.accesses();
        lsr(cpu, bus, address_mode_value);
        let ghost b1 = bus.accesses();
        eor(cpu, bus, address_mode_value);
        proof {
            lemma_three(b0, b1, bus.accesses(), address_mode_value->AbsoluteAddress_0, shift_right(got(b0, b1, 0)).0);
        }
    }
}

/// RRA: Combines the ROR and ADC opcodes
pub fn rra<B: Interface6502>(cpu: &mut MOS6502, bus: &mut B, address_mode_value: AddressModeValue)
    requires
        address_mode_value is AbsoluteAddress,
    ensures
        gated(*old(bus), *final(bus), *old(cpu), *final(cpu), modifies_then_reads(
            *old(bus),
            *final(bus),
            address_mode_value->AbsoluteAddress_0,
            *old(cpu),
            *final(cpu),
            |v: u8| rotate_right(v, carry_in(*old(cpu))).0,
            |c: MOS6502, v1: u8, v2: u8|
                add_with_carry(shifted(c, rotate_right(v1, carry_in(c)), false), v2),
        )),
{
    if cpu.illegal_opcodes_enabled {
        let ghost b0 = bus.accesses();
        ror(cpu, bus, address_mode_value);
        let ghost b1 = bus.accesses();
        adc(cpu, bus, address_mode_value);
        proof {
            lemma_three(b0, b1, bus.accesses(), address_mode_value->AbsoluteAddress_0, rotate_right(got(b0, b1, 0), carry_in(*old(cpu))).0);
        }
    }
}

/// DCP: Combines the DEC and CMP opcodes, decrementing the addressed value and comparing it to
/// the accumulator
pub fn dcp<B: Interface6502>(cpu: &mut MOS6502, bus: &mut B, address_mode_value: AddressModeValue)
    requires
        address_mode_value is AbsoluteAddress,
    ensures
        gated(*old(bus), *final(bus), *old(cpu), *final(cpu), modifies_then_reads(
            *old(bus),
            *final(bus),
            address_mode_value->AbsoluteAddress_0,
            *old(cpu),
            *final(cpu),
            |v: u8| v.wrapping_sub(1),
            |c: MOS6502, v1: u8, v2: u8|
                compared(flags_of_result(c, v1.wrapping_sub(1)), c.accumulator, v2),
        )),
{
    if cpu.illegal_opcodes_enabled {
        let ghost b0 = bus.accesses();
        dec(cpu, bus, address_mode_value);
        let ghost b1 = bus.accesses();
        cmp(cpu, bus, address_mode_value);
        proof {
            lemma_three(b0, b1, bus.accesses(), address_mode_value->AbsoluteAddress_0, got(b0, b1, 0).wrapping_sub(1));
        }
    }
}

/// ISC: Combines the INC and SBC opcodes, incrementing the addressed value and then subtracting
/// it from the accumulator
pub fn isc<B: Interface6502>(cpu: &mut MOS6502, bus: &mut B, address_mode_value: AddressModeValue)
    requires
        address_mode_value is AbsoluteAddress,
    ensures
        gated(*old(bus), *final(bus), *old(cpu), *final(cpu), modifies_then_reads(
            *old(bus),
            *final(bus),
            address_mode_value->AbsoluteAddress_0,
            *old(cpu),
            *final(cpu),
            |v: u8| v.wrapping_add(1),
            |c: MOS6502, v1: u8, v2: u8|
                subtract_with_carry(flags_of_result(c, v1.wrapping_add(1)), v2),
        )),
{
    if cpu.illegal_opcodes_enabled {
        let ghost b0 = bus.accesses();
        inc(cpu, bus, address_mode_value);
        let ghost b1 = bus.accesses();
        sbc(cpu, bus, address_mode_value);
        proof {
            lemma_three(b0, b1, bus.accesses(), address_mode_value->AbsoluteAddress_0, got(b0, b1, 0).wrapping_add(1));
        }
    }
}

/// LAX: Combines the LDA and LDX opcodes, loading the addressed value into both registers
pub fn lax<B: Interface6502>(cpu: &mut MOS6502, bus: &mut B, address_mode_value: AddressModeValue)
    requires
        address_mode_value is AbsoluteAddress,
    ensures
        gated(*old(bus), *final(bus), *old(cpu), *final(cpu), reads_twice(
            *old(bus),
            *final(bus),
            address_mode_value->AbsoluteAddress_0,
            *old(cpu),
            *final(cpu),
            |c: MOS6502, v1: u8, v2: u8| load_x(load_accumulator(c, v1), v2),
        )),
{
    if cpu.illegal_opcodes_enabled {
        lda(cpu, bus, address_mode_value);
        let ghost b1 = bus.accesses();
        ldx(cpu, bus, address_mode_value);
        let ghost (b, a) = (old(bus).accesses(), bus.accesses());
        assert(got(b1, a, 0) == got(b, a, 1));
        assert(a =~= b + seq![
            BusAccess::Read(address_mode_value->AbsoluteAddress_0, got(b, a, 0)),
            BusAccess::Read(address_mode_value->AbsoluteAddress_0, got(b, a, 1)),
        ]);
    }
}

/// SAX: Stores the accumulator AND the x register at the address
pub fn sax<B: Interface6502>(cpu: &mut MOS6502, bus: &mut B, address_mode_value: AddressModeValue)
    requires
        address_mode_value is AbsoluteAddress,
    ensures
        gated(*old(bus), *final(bus), *old(cpu), *final(cpu),
            final(bus).accesses() == old(bus).accesses().push(BusAccess::Write(
                address_mode_value->AbsoluteAddress_0,
                old(cpu).accumulator & old(cpu).x_register,
            )) && *final(cpu) == *old(cpu)),
{
    if cpu.illegal_opcodes_enabled {
        bus.write(address_mode_value.address(), cpu.accumulator & cpu.x_register);
    }
}

/// ANC: ANDs the operand into the accumulator and sets the carry from bit 7 of the result, as ASL
/// would
pub fn anc<B: Interface6502>(cpu: &mut MOS6502, bus: &mut B, address_mode_value: AddressModeValue)
    requires
        address_mode_value is AbsoluteAddress,
    ensures
        gated(*old(bus), *final(bus), *old(cpu), *final(cpu), ({
            let (b, a) = (old(bus).accesses(), final(bus).accesses());
            let s = load_accumulator(*old(cpu), old(cpu).accumulator & got(b, a, 0));
            &&& a == b.push(BusAccess::Read(address_mode_value->AbsoluteAddress_0, got(b, a, 0)))
            &&& *final(cpu) == (MOS6502 {
                status_register: with_flag(s.status_register, StatusFlag::Carry, s.accumulator >= 128),
                ..s
            })
        })),
{
    if cpu.illegal_opcodes_enabled {
        and(cpu, bus, address_mode_value);
        let n = is_negative(cpu.accumulator);
        cpu.set_flag(StatusFlag::Carry, n);
    }
}

/// ALR: ANDs the operand into the accumulator, then shifts the accumulator right
pub fn alr<B: Interface6502>(cpu: &mut MOS6502, bus: &mut B, address_mode_value: AddressModeValue)
    requires
        address_mode_value is AbsoluteAddress,
    ensures
        gated(*old(bus), *final(bus), *old(cpu), *final(cpu), ({
            let (b, a) = (old(bus).accesses(), final(bus).accesses());
            let s = load_accumulator(*old(cpu), old(cpu).accumulator & got(b, a, 0));
            &&& a == b.push(BusAccess::Read(address_mode_value->AbsoluteAddress_0, got(b, a, 0)))
            &&& *final(cpu) == shifted(s, shift_right(s.accumulator), true)
        })),
{
    if cpu.illegal_opcodes_enabled {
        and(cpu, bus, address_mode_value);
        lsr(cpu, bus, AddressModeValue::Implied);
    }
}

/// The state after ARR on the bytes `v1` (read by the AND) and `v2` (read again for the
/// overflow): Overflow as an addition of `v2` to the ANDed accumulator would set it, then the
/// accumulator with bit 0 cleared rotated right through the carry.
pub open spec fn arr_result(cpu: MOS6502, v1: u8, v2: u8) -> MOS6502 {
    let s = load_accumulator(cpu, cpu.accumulator & v1);
    let t = MOS6502 {
        status_register: with_flag(
            s.status_register,
            StatusFlag::Overflow,
            overflow(s.accumulator, v2, s.accumulator.wrapping_add(v2)),
        ),
        accumulator: s.accumulator & !1u8,
        ..s
    };
    shifted(t, rotate_right(t.accumulator, carry_in(t)), true)
}

/// ARR: ANDs the operand into the accumulator, then rotates the accumulator right, with flags
/// partly set as by ADC
pub fn arr<B: Interface6502>(cpu: &mut MOS6502, bus: &mut B, address_mode_value: AddressModeValue)
    requires
        address_mode_value is AbsoluteAddress,
    ensures
        gated(*old(bus), *final(bus), *old(cpu), *final(cpu), reads_twice(
            *old(bus),
            *final(bus),
            address_mode_value->AbsoluteAddress_0,
            *old(cpu),
            *final(cpu),
            |c: MOS6502, v1: u8, v2: u8| arr_result(c, v1, v2),
        )),
{
    if cpu.illegal_opcodes_enabled {
        and(cpu, bus, address_mode_value);
        let ghost b1 = bus.accesses();
        let value = bus.read(address_mode_value.address());
        let result = cpu.accumulator.wrapping_add(value);
        cpu.set_flag(
            StatusFlag::Overflow,
            (!(cpu.accumulator ^ value) & (cpu.accumulator ^ result) & 0x80u8) != 0,
        );
        cpu.accumulator = cpu.accumulator & !1u8;
        ror(cpu, bus, AddressModeValue::Implied);
        let ghost (b, a) = (old(bus).accesses(), bus.accesses());
        assert(a =~= b + seq![
            BusAccess::Read(address_mode_value->AbsoluteAddress_0, got(b, a, 0)),
            BusAccess::Read(address_mode_value->AbsoluteAddress_0, got(b, a, 1)),
        ]);
    }
}

/// XAA: Combines the TXA and AND opcodes, copying the x register into the accumulator and then
/// ANDing it with the addressed value
pub fn xaa<B: Interface6502>(cpu: &mut MOS6502, bus: &mut B, address_mode_value: AddressModeValue)
    requires
        address_mode_value is AbsoluteAddress,
    ensures
        gated(*old(bus), *final(bus), *old(cpu), *final(cpu), ({
            let (b, a) = (old(bus).accesses(), final(bus).accesses());
            let s = load_accumulator(*old(cpu), old(cpu).x_register);
            &&& a == b.push(BusAccess::Read(address_mode_value->AbsoluteAddress_0, got(b, a, 0)))
            &&& *final(cpu) == load_accumulator(s, s.accumulator & got(b, a, 0))
        })),
{
    if cpu.illegal_opcodes_enabled {
        txa(cpu, bus, AddressModeValue::Implied);
        and(cpu, bus, address_mode_value);
    }
}

/// AXS: Sets the x register to the accumulator AND the x register, minus the operand, with the
/// flags of a comparison
pub fn axs<B: Interface6502>(cpu: &mut MOS6502, bus: &mut B, address_mode_value: AddressModeValue)
    requires
        address_mode_value is AbsoluteAddress,
    ensures
        gated(*old(bus), *final(bus), *old(cpu), *final(cpu), ({
            let (b, a) = (old(bus).accesses(), final(bus).accesses());
            let masked = old(cpu).accumulator & old(cpu).x_register;
            &&& a == b.push(BusAccess::Read(address_mode_value->AbsoluteAddress_0, got(b, a, 0)))
            &&& *final(cpu) == (MOS6502 {
                x_register: masked.wrapping_sub(got(b, a, 0)),
                ..compared(*old(cpu), masked, got(b, a, 0))
            })
        })),
{
    if cpu.illegal_opcodes_enabled {
        let value = cpu.accumulator & cpu.x_register;
        cpu.x_register = compare(cpu, bus, value, address_mode_value);
    }
}

/// The high byte of an address.
pub open spec fn high_byte(address: u16) -> u8 {
    (address / 256) as u8
}

/// The high byte of an address.
fn high_byte_of(address: u16) -> (r: u8)
    ensures
        r == high_byte(address),
{
    (address / 256) as u8
}

/// AHX: Stores the accumulator AND the x register AND the high byte of the address
pub fn ahx<B: Interface6502>(cpu: &mut MOS6502, bus: &mut B, address_mode_value: AddressModeValue)
    requires
        address_mode_value is AbsoluteAddress,
    ensures
        gated(*old(bus), *final(bus), *old(cpu), *final(cpu), ({
            let address = address_mode_value->AbsoluteAddress_0;
            &&& final(bus).accesses() == old(bus).accesses().push(BusAccess::Write(
                address,
                old(cpu).accumulator & old(cpu).x_register & high_byte(address),
            ))
            &&& *final(cpu) == *old(cpu)
        })),
{
    if cpu.illegal_opcodes_enabled {
        let address = address_mode_value.address();
        bus.write(address, cpu.accumulator & cpu.x_register & high_byte_of(address));
    }
}

/// SHY: Stores the y register AND the high byte of the address
pub fn shy<B: Interface6502>(cpu: &mut MOS6502, bus: &mut B, address_mode_value: AddressModeValue)
    requires
        address_mode_value is AbsoluteAddress,
    ensures
        gated(*old(bus), *final(bus), *old(cpu), *final(cpu), ({
            let address = address_mode_value->AbsoluteAddress_0;
            &&& final(bus).accesses() == old(bus).accesses().push(BusAccess::Write(
                address,
                old(cpu).y_register & high_byte(address),
            ))
            &&& *final(cpu) == *old(cpu)
        })),
{
    if cpu.illegal_opcodes_enabled {
        let address = address_mode_value.address();
        bus.write(address, cpu.y_register & high_byte_of(address));
    }
}

/// SHX: Stores the x register AND the high byte of the address
pub fn shx<B: Interface6502>(cpu: &mut MOS6502, bus: &mut B, address_mode_value: AddressModeValue)
    requires
        address_mode_value is AbsoluteAddress,
    ensures
        gated(*old(bus), *final(bus), *old(cpu), *final(cpu), ({
            let address = address_mode_value->AbsoluteAddress_0;
            &&& final(bus).accesses() == old(bus).accesses().push(BusAccess::Write(
                address,
                old(cpu).x_register & high_byte(address),
            ))
            &&& *final(cpu) == *old(cpu)
        })),
{
    if cpu.illegal_opcodes_enabled {
        let address = address_mode_value.address();
        bus.write(address, cpu.x_register & high_byte_of(address));
    }
}

/// TAS: Sets the stack pointer to the accumulator AND the x register, then stores as AHX does
pub fn tas<B: Interface6502>(cpu: &mut MOS6502, bus: &mut B, address_mode_value: AddressModeValue)
    requires
        address_mode_value is AbsoluteAddress,
    ensures
        gated(*old(bus), *final(bus), *old(cpu), *final(cpu), ({
            let address = address_mode_value->AbsoluteAddress_0;
            let masked = old(cpu).accumulator & old(cpu).x_register;
            &&& final(bus).accesses() == old(bus).accesses().push(BusAccess::Write(
                address,
                masked & high_byte(address),
            ))
            &&& *final(cpu) == (MOS6502 { stack_pointer: masked, ..*old(cpu) })
        })),
{
    if cpu.illegal_opcodes_enabled {
        cpu.stack_pointer = cpu.accumulator & cpu.x_register;
        ahx(cpu, bus, address_mode_value);
    }
}

/// LAS: Sets the stack pointer, x register, and accumulator to the addressed value AND the stack
/// pointer
pub fn las<B: Interface6502>(cpu: &mut MOS6502, bus: &mut B, address_mode_value: AddressModeValue)
    requires
        address_mode_value is AbsoluteAddress,
    ensures
        gated(*old(bus), *final(bus), *old(cpu), *final(cpu), ({
            let (b, a) = (old(bus).accesses(), final(bus).accesses());
            let value = got(b, a, 0) & old(cpu).stack_pointer;
            &&& a == b.push(BusAccess::Read(address_mode_value->AbsoluteAddress_0, got(b, a, 0)))
            &&& *final(cpu) == (MOS6502 {
                accumulator: value,
                x_register: value,
                stack_pointer: value,
                status_register: zn(old(cpu).status_register, value),
                ..*old(cpu)
            })
        })),
{
    if cpu.illegal_opcodes_enabled {
        let value = bus.read(address_mode_value.address()) & cpu.stack_pointer;
        cpu.accumulator = value;
        cpu.x_register = value;
        cpu.stack_pointer = value;
        cpu.set_zero_negative(value);
    }
}

/// KIL: Jams the processor: the program counter goes back onto the KIL opcode, so that the
/// processor runs it again and again and makes no further progress
pub fn kil<B: Interface6502>(cpu: &mut MOS6502, bus: &mut B, address_mode_value: AddressModeValue)
    ensures
        gated(*old(bus), *final(bus), *old(cpu), *final(cpu),
            final(bus).accesses() == old(bus).accesses() && *final(cpu) == (MOS6502 {
                program_counter: old(cpu).program_counter.wrapping_sub(1),
                ..*old(cpu)
            })),
{
    if cpu.illegal_opcodes_enabled {
        cpu.program_counter = cpu.program_counter.wrapping_sub(1);
    }
}

} // verus!
