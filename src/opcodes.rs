//! The documented instructions. Each takes the operand resolved by its addressing mode and
//! changes the registers, the flags and, through the interface, memory.
//!
//! The arithmetic of each instruction is stated by a spec function from the processor state and
//! the operand byte to the new state; the instruction functions are held to it whatever byte the
//! interface hands back.
use crate::address_modes::{page, AddressModeValue};
use crate::bus::{got, read_16, word, BusAccess, Interface6502};
use crate::cpu::{
    flag_of, pop_16_reads, push_16_writes, stack_address, with_flag, StatusFlag, IRQ_ADDRESS_LOCATION,
    MOS6502,
};
use vstd::prelude::*;

verus! {

// Shapes of the access record ----------------------------------------------------------------
/// `a` is `b` followed by one read at `address`.
pub open spec fn one_read(b: Seq<BusAccess>, a: Seq<BusAccess>, address: u16) -> bool {
    a == b.push(BusAccess::Read(address, got(b, a, 0)))
}

/// `a` is `b` followed by a read at `address` and a write of `data` back to it.
pub open spec fn read_then_write(b: Seq<BusAccess>, a: Seq<BusAccess>, address: u16, data: u8) -> bool {
    a == b + seq![BusAccess::Read(address, got(b, a, 0)), BusAccess::Write(address, data)]
}

// Flags ---------------------------------------------------------------------------------------
/// The status byte with Zero and Negative set from a result byte.
pub open spec fn zn(status: u8, value: u8) -> u8 {
    with_flag(with_flag(status, StatusFlag::Zero, value == 0), StatusFlag::Negative, value >= 128)
}

/// The state with a register loaded or computed into the accumulator, Zero and Negative from it.
pub open spec fn load_accumulator(cpu: MOS6502, value: u8) -> MOS6502 {
    MOS6502 { accumulator: value, status_register: zn(cpu.status_register, value), ..cpu }
}

/// The state with a value loaded into the x register, Zero and Negative from it.
pub open spec fn load_x(cpu: MOS6502, value: u8) -> MOS6502 {
    MOS6502 { x_register: value, status_register: zn(cpu.status_register, value), ..cpu }
}

/// The state with a value loaded into the y register, Zero and Negative from it.
pub open spec fn load_y(cpu: MOS6502, value: u8) -> MOS6502 {
    MOS6502 { y_register: value, status_register: zn(cpu.status_register, value), ..cpu }
}

/// The state with one flag set to a value.
pub open spec fn set_flag_state(cpu: MOS6502, flag: StatusFlag, value: bool) -> MOS6502 {
    MOS6502 { status_register: with_flag(cpu.status_register, flag, value), ..cpu }
}

/// Whether the byte is negative as a signed number (bit 7 set).
pub fn is_negative(value: u8) -> (r: bool)
    ensures
        r == (value >= 128),
{
    let r = value & 0x80u8 != 0;
    assert(r == (value >= 128)) by (bit_vector)
        requires
            r == (value & 0x80u8 != 0),
    ;
    r
}

impl MOS6502 {
    /// Sets Zero and Negative from a result byte.
    pub fn set_zero_negative(&mut self, value: u8)
        ensures
            *final(self) == (MOS6502 {
                status_register: zn(old(self).status_register, value),
                ..*old(self)
            }),
    {
        self.set_flag(StatusFlag::Zero, value == 0);
        let n = is_negative(value);
        self.set_flag(StatusFlag::Negative, n);
    }

    /// The carry flag as the number it adds.
    pub fn carry_bit(&self) -> (r: u8)
        ensures
            r == carry_in(*self),
    {
        if self.get_flag(StatusFlag::Carry) {
            1
        } else {
            0
        }
    }
}

/// The carry flag as the number it adds.
pub open spec fn carry_in(cpu: MOS6502) -> u8 {
    if flag_of(cpu.status_register, StatusFlag::Carry) {
        1
    } else {
        0
    }
}

// Arithmetic ----------------------------------------------------------------------------------
/// Signed overflow of an addition of `m` to `a` that gave `r`: both operands of one sign and
/// the result of the other.
pub open spec fn overflow(a: u8, m: u8, r: u8) -> bool {
    !(a ^ m) & (a ^ r) & 0x80u8 != 0
}

/// The status byte after an addition: Carry, Zero, Overflow and Negative.
pub open spec fn arithmetic_flags(status: u8, carry: bool, a: u8, m: u8, r: u8) -> u8 {
    with_flag(
        with_flag(
            with_flag(with_flag(status, StatusFlag::Carry, carry), StatusFlag::Zero, r == 0),
            StatusFlag::Overflow,
            overflow(a, m, r),
        ),
        StatusFlag::Negative,
        r >= 128,
    )
}

/// Whether ADC and SBC work in binary coded decimal on this state.
pub open spec fn decimal_active(cpu: MOS6502) -> bool {
    cpu.decimal_mode_enabled && flag_of(cpu.status_register, StatusFlag::Decimal)
}

/// Binary addition: the low byte of `a + m + c`, and whether the sum exceeded eight bits.
pub open spec fn binary_sum(a: u8, m: u8, c: u8) -> (u8, bool) {
    let sum = a as int + m as int + c as int;
    ((sum % 256) as u8, sum > 255)
}

/// Decimal addition digit by digit: the low digits and the carry are added and corrected by 6
/// when they pass 9, which carries into the high digits; the high digits are added and corrected
/// the same way, and their carry is the carry out.
pub open spec fn decimal_sum(a: u8, m: u8, c: u8) -> (u8, bool) {
    let low = (a % 16) as int + (m % 16) as int + c as int;
    let low = if low > 9 {
        low + 6
    } else {
        low
    };
    let high = (a / 16) as int + (m / 16) as int + if low > 15 {
        1int
    } else {
        0int
    };
    let high = if high > 9 {
        high + 6
    } else {
        high
    };
    (((high % 16) * 16 + low % 16) as u8, high > 15)
}

/// Decimal subtraction digit by digit: the low digits and the borrow (the inverse of the carry)
/// are subtracted and corrected by 6 when they go below zero, which borrows from the high
/// digits; the high digits are subtracted and corrected the same way. The carry out is set when
/// the whole subtraction did not borrow.
pub open spec fn decimal_difference(a: u8, m: u8, c: u8) -> (u8, bool) {
    let low = (a % 16) as int - (m % 16) as int - (1 - c as int);
    let high = (a / 16) as int - (m / 16) as int - if low < 0 {
        1int
    } else {
        0int
    };
    let low = if low < 0 {
        low - 6
    } else {
        low
    };
    let high = if high < 0 {
        high - 6
    } else {
        high
    };
    (((high % 16) * 16 + low % 16) as u8, a as int - m as int - (1 - c as int) >= 0)
}

/// The state after adding `m` and the carry to the accumulator.
pub open spec fn add_with_carry(cpu: MOS6502, m: u8) -> MOS6502 {
    let a = cpu.accumulator;
    let (r, carry) = if decimal_active(cpu) {
        decimal_sum(a, m, carry_in(cpu))
    } else {
        binary_sum(a, m, carry_in(cpu))
    };
    MOS6502 {
        accumulator: r,
        status_register: arithmetic_flags(cpu.status_register, carry, a, m, r),
        ..cpu
    }
}

/// The state after subtracting `m` and the borrow (the inverse of the carry) from the
/// accumulator: an addition of the inverted operand.
pub open spec fn subtract_with_carry(cpu: MOS6502, m: u8) -> MOS6502 {
    let a = cpu.accumulator;
    let inv = !m;
    let (r, carry) = if decimal_active(cpu) {
        decimal_difference(a, m, carry_in(cpu))
    } else {
        binary_sum(a, inv, carry_in(cpu))
    };
    MOS6502 {
        accumulator: r,
        status_register: arithmetic_flags(cpu.status_register, carry, a, inv, r),
        ..cpu
    }
}

/// The binary sum of two bytes and a carry.
fn binary_add(a: u8, m: u8, c: u8) -> (r: (u8, bool))
    requires
        c <= 1,
    ensures
        r == binary_sum(a, m, c),
{
    let sum: u16 = a as u16 + m as u16 + c as u16;
    ((sum % 256) as u8, sum > 0xff)
}

/// The decimal sum of two bytes and a carry.
fn decimal_add(a: u8, m: u8, c: u8) -> (r: (u8, bool))
    requires
        c <= 1,
    ensures
        r == decimal_sum(a, m, c),
{
    let mut low: u8 = a % 16 + m % 16 + c;
    if low > 9 {
        low = low + 6;
    }
    let mut high: u8 = a / 16 + m / 16 + if low > 15 {
        1
    } else {
        0
    };
    if high > 9 {
        high = high + 6;
    }
    ((high % 16) * 16 + low % 16, high > 15)
}

/// The decimal difference of two bytes and a carry.
fn decimal_subtract(a: u8, m: u8, c: u8) -> (r: (u8, bool))
    requires
        c <= 1,
    ensures
        r == decimal_difference(a, m, c),
{
    let low: i16 = (a % 16) as i16 - (m % 16) as i16 - (1 - c as i16);
    let high: i16 = (a / 16) as i16 - (m / 16) as i16 - if low < 0 {
        1
    } else {
        0
    };
    let low = if low < 0 {
        low - 6
    } else {
        low
    };
    let high = if high < 0 {
        high - 6
    } else {
        high
    };
    (digit(high) * 16 + digit(low), a as i16 - m as i16 - (1 - c as i16) >= 0)
}

/// The low four bits of a small signed number, as the digit they leave in a byte.
fn digit(v: i16) -> (r: u8)
    requires
        -32 <= v < 32,
    ensures
        r as int == v as int % 16,
        r < 16,
{
    ((v + 32) % 16) as u8
}

/// Stores the result `r` of adding `m` to the accumulator `a`, with its flags.
fn store_sum(cpu: &mut MOS6502, a: u8, m: u8, r: u8, carry: bool)
    ensures
        *final(cpu) == (MOS6502 {
            accumulator: r,
            status_register: arithmetic_flags(old(cpu).status_register, carry, a, m, r),
            ..*old(cpu)
        }),
{
    cpu.set_flag(StatusFlag::Carry, carry);
    cpu.set_flag(StatusFlag::Zero, r == 0);
    cpu.set_flag(StatusFlag::Overflow, (!(a ^ m) & (a ^ r) & 0x80u8) != 0);
    let n = is_negative(r);
    cpu.set_flag(StatusFlag::Negative, n);
    cpu.accumulator = r;
}

/// Adds to the accumulator: ADC on an operand byte already read.
pub fn add_to_accumulator(cpu: &mut MOS6502, m: u8)
    ensures
        *final(cpu) == add_with_carry(*old(cpu), m),
{
    let a = cpu.accumulator;
    let c = cpu.carry_bit();
    let (r, carry) = if cpu.decimal_mode_enabled && cpu.get_flag(StatusFlag::Decimal) {
        decimal_add(a, m, c)
    } else {
        binary_add(a, m, c)
    };
    store_sum(cpu, a, m, r, carry);
}

/// Subtracts from the accumulator: SBC on an operand byte already read.
pub fn subtract_from_accumulator(cpu: &mut MOS6502, m: u8)
    ensures
        *final(cpu) == subtract_with_carry(*old(cpu), m),
{
    let a = cpu.accumulator;
    let value = !m;
    let c = cpu.carry_bit();
    let (r, carry) = if cpu.decimal_mode_enabled && cpu.get_flag(StatusFlag::Decimal) {
        decimal_subtract(a, m, c)
    } else {
        binary_add(a, value, c)
    };
    store_sum(cpu, a, value, r, carry);
}

/// ADC: Adds a value and the carry bit to the accumulator
pub fn adc<B: Interface6502>(cpu: &mut MOS6502, bus: &mut B, address_mode_value: AddressModeValue)
    requires
        address_mode_value is AbsoluteAddress,
    ensures
        ({
            let (b, a) = (old(bus).accesses(), final(bus).accesses());
            &&& one_read(b, a, address_mode_value->AbsoluteAddress_0)
            &&& *final(cpu) == add_with_carry(*old(cpu), got(b, a, 0))
        }),
{
    let address = address_mode_value.address();
    let value = bus.read(address);
    add_to_accumulator(cpu, value);
}

/// SBC: Subtracts a value and the opposite of the carry bit from the accumulator.
pub fn sbc<B: Interface6502>(cpu: &mut MOS6502, bus: &mut B, address_mode_value: AddressModeValue)
    requires
        address_mode_value is AbsoluteAddress,
    ensures
        ({
            let (b, a) = (old(bus).accesses(), final(bus).accesses());
            &&& one_read(b, a, address_mode_value->AbsoluteAddress_0)
            &&& *final(cpu) == subtract_with_carry(*old(cpu), got(b, a, 0))
        }),
{
    let address = address_mode_value.address();
    let value = bus.read(address);
    subtract_from_accumulator(cpu, value);
}

// Reads into registers ---------------------------------------------------------------------------
/// The contract shared by the instructions that read their operand once and compute a new state
/// from it.
pub open spec fn reads_operand<B: Interface6502>(
    b: B,
    a: B,
    address_mode_value: AddressModeValue,
    before: MOS6502,
    after: MOS6502,
    next: spec_fn(MOS6502, u8) -> MOS6502,
) -> bool {
    let (b, a) = (b.accesses(), a.accesses());
    &&& one_read(b, a, address_mode_value->AbsoluteAddress_0)
    &&& after == next(before, got(b, a, 0))
}

/// AND: Performs a logical and with the accumulator and the addressed value, storing the result
/// in the accumulator
pub fn and<B: Interface6502>(cpu: &mut MOS6502, bus: &mut B, address_mode_value: AddressModeValue)
    requires
        address_mode_value is AbsoluteAddress,
    ensures
        reads_operand(
            *old(bus),
            *final(bus),
            address_mode_value,
            *old(cpu),
            *final(cpu),
            |c: MOS6502, v: u8| load_accumulator(c, c.accumulator & v),
        ),
{
    let value = bus.read(address_mode_value.address());
    cpu.accumulator = cpu.accumulator & value;
    cpu.set_zero_negative(cpu.accumulator);
}

/// ORA: The accumulator is set to the result of a inclusive or operation applied to the
/// accumulator and a memory value
pub fn ora<B: Interface6502>(cpu: &mut MOS6502, bus: &mut B, address_mode_value: AddressModeValue)
    requires
        address_mode_value is AbsoluteAddress,
    ensures
        reads_operand(
            *old(bus),
            *final(bus),
            address_mode_value,
            *old(cpu),
            *final(cpu),
            |c: MOS6502, v: u8| load_accumulator(c, c.accumulator | v),
        ),
{
    let value = bus.read(address_mode_value.address());
    cpu.accumulator = cpu.accumulator | value;
    cpu.set_zero_negative(cpu.accumulator);
}

/// EOR: Set accumulator to the result of an exclusive or operation with the accumulator and a
/// value from memory
pub fn eor<B: Interface6502>(cpu: &mut MOS6502, bus: &mut B, address_mode_value: AddressModeValue)
    requires
        address_mode_value is AbsoluteAddress,
    ensures
        reads_operand(
            *old(bus),
            *final(bus),
            address_mode_value,
            *old(cpu),
            *final(cpu),
            |c: MOS6502, v: u8| load_accumulator(c, c.accumulator ^ v),
        ),
{
    let value = bus.read(address_mode_value.address());
    cpu.accumulator = cpu.accumulator ^ value;
    cpu.set_zero_negative(cpu.accumulator);
}

/// The state after BIT: Zero from the accumulator masked by the operand, Overflow and Negative
/// copied from bits 6 and 7 of the operand.
pub open spec fn bit_test(cpu: MOS6502, v: u8) -> MOS6502 {
    MOS6502 {
        status_register: with_flag(
            with_flag(
                with_flag(cpu.status_register, StatusFlag::Zero, cpu.accumulator & v == 0),
                StatusFlag::Overflow,
                v & 0x40u8 != 0,
            ),
            StatusFlag::Negative,
            v >= 128,
        ),
        ..cpu
    }
}

/// BIT: Uses the accumulator as a mask pattern to test the bits of a given memory location
pub fn bit<B: Interface6502>(cpu: &mut MOS6502, bus: &mut B, address_mode_value: AddressModeValue)
    requires
        address_mode_value is AbsoluteAddress,
    ensures
        reads_operand(
            *old(bus),
            *final(bus),
            address_mode_value,
            *old(cpu),
            *final(cpu),
            |c: MOS6502, v: u8| bit_test(c, v),
        ),
{
    let value = bus.read(address_mode_value.address());
    cpu.set_flag(StatusFlag::Zero, cpu.accumulator & value == 0);
    cpu.set_flag(StatusFlag::Overflow, value & 0x40u8 != 0);
    let n = is_negative(value);
    cpu.set_flag(StatusFlag::Negative, n);
}

/// LDA: Load a value into the accumulator from a memory address
pub fn lda<B: Interface6502>(cpu: &mut MOS6502, bus: &mut B, address_mode_value: AddressModeValue)
    requires
        address_mode_value is AbsoluteAddress,
    ensures
        reads_operand(
            *old(bus),
            *final(bus),
            address_mode_value,
            *old(cpu),
            *final(cpu),
            |c: MOS6502, v: u8| load_accumulator(c, v),
        ),
{
    cpu.accumulator = bus.read(address_mode_value.address());
    cpu.set_zero_negative(cpu.accumulator);
}

/// LDX: Load a value into the x register from a memory address
pub fn ldx<B: Interface6502>(cpu: &mut MOS6502, bus: &mut B, address_mode_value: AddressModeValue)
    requires
        address_mode_value is AbsoluteAddress,
    ensures
        reads_operand(
            *old(bus),
            *final(bus),
            address_mode_value,
            *old(cpu),
            *final(cpu),
            |c: MOS6502, v: u8| load_x(c, v),
        ),
{
    cpu.x_register = bus.read(address_mode_value.address());
    cpu.set_zero_negative(cpu.x_register);
}

/// LDY: Load a value into the y register from a memory address
pub fn ldy<B: Interface6502>(cpu: &mut MOS6502, bus: &mut B, address_mode_value: AddressModeValue)
    requires
        address_mode_value is AbsoluteAddress,
    ensures
        reads_operand(
            *old(bus),
            *final(bus),
            address_mode_value,
            *old(cpu),
            *final(cpu),
            |c: MOS6502, v: u8| load_y(c, v),
        ),
{
    cpu.y_register = bus.read(address_mode_value.address());
    cpu.set_zero_negative(cpu.y_register);
}

// Compare ------------------------------------------------------------------------------------
/// The state after comparing a register with an operand: Carry when the register is at least
/// the operand, Zero when they are equal, Negative from bit 7 of their difference.
pub open spec fn compared(cpu: MOS6502, register: u8, v: u8) -> MOS6502 {
    MOS6502 {
        status_register: with_flag(
            with_flag(
                with_flag(cpu.status_register, StatusFlag::Carry, register >= v),
                StatusFlag::Zero,
                register == v,
            ),
            StatusFlag::Negative,
            register.wrapping_sub(v) >= 128,
        ),
        ..cpu
    }
}

/// General purpose function for comparison opcodes: compares a register with the operand and
/// returns their difference
pub fn compare<B: Interface6502>(
    cpu: &mut MOS6502,
    bus: &mut B,
    register: u8,
    address_mode_value: AddressModeValue,
) -> (r: u8)
    requires
        address_mode_value is AbsoluteAddress,
    ensures
        ({
            let (b, a) = (old(bus).accesses(), final(bus).accesses());
            &&& one_read(b, a, address_mode_value->AbsoluteAddress_0)
            &&& *final(cpu) == compared(*old(cpu), register, got(b, a, 0))
            &&& r == register.wrapping_sub(got(b, a, 0))
        }),
{
    let value = bus.read(address_mode_value.address());
    cpu.set_flag(StatusFlag::Carry, register >= value);
    cpu.set_flag(StatusFlag::Zero, register == value);
    let difference = register.wrapping_sub(value);
    let n = is_negative(difference);
    cpu.set_flag(StatusFlag::Negative, n);
    difference
}

/// CMP: Compare accumulator to a value in memory
pub fn cmp<B: Interface6502>(cpu: &mut MOS6502, bus: &mut B, address_mode_value: AddressModeValue)
    requires
        address_mode_value is AbsoluteAddress,
    ensures
        reads_operand(
            *old(bus),
            *final(bus),
            address_mode_value,
            *old(cpu),
            *final(cpu),
            |c: MOS6502, v: u8| compared(c, c.accumulator, v),
        ),
{
    compare(cpu, bus, cpu.accumulator, address_mode_value);
}

/// CPX: Compare x register to a value in memory
pub fn cpx<B: Interface6502>(cpu: &mut MOS6502, bus: &mut B, address_mode_value: AddressModeValue)
    requires
        address_mode_value is AbsoluteAddress,
    ensures
        reads_operand(
            *old(bus),
            *final(bus),
            address_mode_value,
            *old(cpu),
            *final(cpu),
            |c: MOS6502, v: u8| compared(c, c.x_register, v),
        ),
{
    compare(cpu, bus, cpu.x_register, address_mode_value);
}

/// CPY: Compare y register to a value in memory
pub fn cpy<B: Interface6502>(cpu: &mut MOS6502, bus: &mut B, address_mode_value: AddressModeValue)
    requires
        address_mode_value is AbsoluteAddress,
    ensures
        reads_operand(
            *old(bus),
            *final(bus),
            address_mode_value,
            *old(cpu),
            *final(cpu),
            |c: MOS6502, v: u8| compared(c, c.y_register, v),
        ),
{
    compare(cpu, bus, cpu.y_register, address_mode_value);
}

// Read-modify-write ----------------------------------------------------------------------------
/// The contract shared by the instructions that read a byte at their address, write a new byte
/// `f(v)` back and set the flags by `next`.
pub open spec fn modifies_operand<B: Interface6502>(
    b: B,
    a: B,
    address_mode_value: AddressModeValue,
    before: MOS6502,
    after: MOS6502,
    f: spec_fn(u8) -> u8,
    next: spec_fn(MOS6502, u8) -> MOS6502,
) -> bool {
    let (b, a) = (b.accesses(), a.accesses());
    &&& read_then_write(b, a, address_mode_value->AbsoluteAddress_0, f(got(b, a, 0)))
    &&& after == next(before, got(b, a, 0))
}

/// The state with Zero and Negative set from a byte written to memory.
pub open spec fn flags_of_result(cpu: MOS6502, r: u8) -> MOS6502 {
    MOS6502 { status_register: zn(cpu.status_register, r), ..cpu }
}

/// DEC: Subtract one from the value at the given memory location
pub fn dec<B: Interface6502>(cpu: &mut MOS6502, bus: &mut B, address_mode_value: AddressModeValue)
    requires
        address_mode_value is AbsoluteAddress,
    ensures
        modifies_operand(
            *old(bus),
            *final(bus),
            address_mode_value,
            *old(cpu),
            *final(cpu),
            |v: u8| v.wrapping_sub(1),
            |c: MOS6502, v: u8| flags_of_result(c, v.wrapping_sub(1)),
        ),
{
    let address = address_mode_value.address();
    let value = bus.read(address).wrapping_sub(1);
    cpu.set_zero_negative(value);
    bus.write(address, value);
    let ghost (b, a) = (old(bus).accesses(), bus.accesses());
    assert(a =~= b + seq![BusAccess::Read(address, got(b, a, 0)), BusAccess::Write(address, value)]);
}

/// INC: Add one to the value at the given memory location
pub fn inc<B: Interface6502>(cpu: &mut MOS6502, bus: &mut B, address_mode_value: AddressModeValue)
    requires
        address_mode_value is AbsoluteAddress,
    ensures
        modifies_operand(
            *old(bus),
            *final(bus),
            address_mode_value,
            *old(cpu),
            *final(cpu),
            |v: u8| v.wrapping_add(1),
            |c: MOS6502, v: u8| flags_of_result(c, v.wrapping_add(1)),
        ),
{
    let address = address_mode_value.address();
    let value = bus.read(address).wrapping_add(1);
    cpu.set_zero_negative(value);
    bus.write(address, value);
    let ghost (b, a) = (old(bus).accesses(), bus.accesses());
    assert(a =~= b + seq![BusAccess::Read(address, got(b, a, 0)), BusAccess::Write(address, value)]);
}

// Shifts and rotations ---------------------------------------------------------------------------
/// ASL on a byte: the byte shifted left, and the bit shifted out.
pub open spec fn shift_left(v: u8) -> (u8, bool) {
    (((v as int * 2) % 256) as u8, v >= 128)
}

/// LSR on a byte: the byte shifted right, and the bit shifted out.
pub open spec fn shift_right(v: u8) -> (u8, bool) {
    (v / 2, v % 2 == 1)
}

/// ROL on a byte: the byte shifted left with the carry in bit 0, and the bit shifted out.
pub open spec fn rotate_left(v: u8, carry: u8) -> (u8, bool) {
    (((v as int * 2) % 256 + carry) as u8, v >= 128)
}

/// ROR on a byte: the byte shifted right with the carry in bit 7, and the bit shifted out.
pub open spec fn rotate_right(v: u8, carry: u8) -> (u8, bool) {
    ((v / 2 + carry * 128) as u8, v % 2 == 1)
}

/// The state after a shift whose result was `r` and whose bit shifted out was `carry`, the
/// accumulator taking the result when `to_accumulator` holds.
pub open spec fn shifted(cpu: MOS6502, result: (u8, bool), to_accumulator: bool) -> MOS6502 {
    let status = zn(with_flag(cpu.status_register, StatusFlag::Carry, result.1), result.0);
    if to_accumulator {
        MOS6502 { accumulator: result.0, status_register: status, ..cpu }
    } else {
        MOS6502 { status_register: status, ..cpu }
    }
}

/// The contract shared by the shifts: on the accumulator when implied, else on the byte at the
/// address, read and written back.
pub open spec fn shifts<B: Interface6502>(
    b: B,
    a: B,
    address_mode_value: AddressModeValue,
    before: MOS6502,
    after: MOS6502,
    f: spec_fn(u8, u8) -> (u8, bool),
) -> bool {
    let (b, a) = (b.accesses(), a.accesses());
    if address_mode_value is Implied {
        &&& a == b
        &&& after == shifted(before, f(before.accumulator, carry_in(before)), true)
    } else {
        let v = got(b, a, 0);
        &&& read_then_write(b, a, address_mode_value->AbsoluteAddress_0, f(v, carry_in(before)).0)
        &&& after == shifted(before, f(v, carry_in(before)), false)
    }
}

/// Sets the flags of a shift and returns its result.
fn shift_flags(cpu: &mut MOS6502, result: (u8, bool)) -> (r: u8)
    ensures
        r == result.0,
        *final(cpu) == shifted(*old(cpu), result, false),
{
    cpu.set_flag(StatusFlag::Carry, result.1);
    cpu.set_zero_negative(result.0);
    result.0
}

/// The four shifts and rotations.
#[derive(Debug, Clone, Copy, PartialEq, Eq, Structural)]
pub enum Shift {
    Left,
    Right,
    RotateLeft,
    RotateRight,
}

/// Applies a shift to the accumulator or to the addressed byte, with its flags.
fn shift_operand<B: Interface6502>(
    cpu: &mut MOS6502,
    bus: &mut B,
    address_mode_value: AddressModeValue,
    kind: Shift,
)
    requires
        !(address_mode_value is RelativeAddress),
    ensures
        shifts(*old(bus), *final(bus), address_mode_value, *old(cpu), *final(cpu), shift_kind(kind)),
{
    let carry = cpu.carry_bit();
    if address_mode_value == AddressModeValue::Implied {
        let result = shift_byte(kind, cpu.accumulator, carry);
        cpu.accumulator = shift_flags(cpu, result);
    } else {
        let address = address_mode_value.address();
        let value = bus.read(address);
        let result = shift_byte(kind, value, carry);
        let r = shift_flags(cpu, result);
        bus.write(address, r);
        let ghost (b, a) = (old(bus).accesses(), bus.accesses());
        assert(a =~= b + seq![BusAccess::Read(address, got(b, a, 0)), BusAccess::Write(address, r)]);
    }
}

/// A shift as a function of the byte and the carry in.
pub open spec fn shift_kind(kind: Shift) -> spec_fn(u8, u8) -> (u8, bool) {
    |v: u8, c: u8|
        match kind {
            Shift::Left => shift_left(v),
            Shift::Right => shift_right(v),
            Shift::RotateLeft => rotate_left(v, c),
            Shift::RotateRight => rotate_right(v, c),
        }
}

/// Computes a shift on a byte with a carry in.
fn shift_byte(kind: Shift, v: u8, carry: u8) -> (r: (u8, bool))
    requires
        carry <= 1,
    ensures
        r == (shift_kind(kind))(v, carry),
{
    match kind {
        Shift::Left => (v.wrapping_add(v), v >= 128),
        Shift::Right => (v / 2, v % 2 == 1),
        Shift::RotateLeft => (v.wrapping_add(v) + carry, v >= 128),
        Shift::RotateRight => (v / 2 + carry * 128, v % 2 == 1),
    }
}

/// ASL: Performs a left bit shift on the addressed value or accumulator
pub fn asl<B: Interface6502>(cpu: &mut MOS6502, bus: &mut B, address_mode_value: AddressModeValue)
    requires
        !(address_mode_value is RelativeAddress),
    ensures
        shifts(
            *old(bus),
            *final(bus),
            address_mode_value,
            *old(cpu),
            *final(cpu),
            |v: u8, c: u8| shift_left(v),
        ),
{
    shift_operand(cpu, bus, address_mode_value, Shift::Left);
    assert(shift_kind(Shift::Left) =~= (|v: u8, c: u8| shift_left(v)));
}

/// LSR: Performs a right bit shift on the addressed value or accumulator
pub fn lsr<B: Interface6502>(cpu: &mut MOS6502, bus: &mut B, address_mode_value: AddressModeValue)
    requires
        !(address_mode_value is RelativeAddress),
    ensures
        shifts(
            *old(bus),
            *final(bus),
            address_mode_value,
            *old(cpu),
            *final(cpu),
            |v: u8, c: u8| shift_right(v),
        ),
{
    shift_operand(cpu, bus, address_mode_value, Shift::Right);
    assert(shift_kind(Shift::Right) =~= (|v: u8, c: u8| shift_right(v)));
}

/// ROL: Rotate the bits of the addressed value or accumulator to the left, through the carry
pub fn rol<B: Interface6502>(cpu: &mut MOS6502, bus: &mut B, address_mode_value: AddressModeValue)
    requires
        !(address_mode_value is RelativeAddress),
    ensures
        shifts(
            *old(bus),
            *final(bus),
            address_mode_value,
            *old(cpu),
            *final(cpu),
            |v: u8, c: u8| rotate_left(v, c),
        ),
{
    shift_operand(cpu, bus, address_mode_value, Shift::RotateLeft);
    assert(shift_kind(Shift::RotateLeft) =~= (|v: u8, c: u8| rotate_left(v, c)));
}

/// ROR: Rotate the bits of the addressed value or accumulator to the right, through the carry
pub fn ror<B: Interface6502>(cpu: &mut MOS6502, bus: &mut B, address_mode_value: AddressModeValue)
    requires
        !(address_mode_value is RelativeAddress),
    ensures
        shifts(
            *old(bus),
            *final(bus),
            address_mode_value,
            *old(cpu),
            *final(cpu),
            |v: u8, c: u8| rotate_right(v, c),
        ),
{
    shift_operand(cpu, bus, address_mode_value, Shift::RotateRight);
    assert(shift_kind(Shift::RotateRight) =~= (|v: u8, c: u8| rotate_right(v, c)));
}

// Branches -----------------------------------------------------------------------------------
/// A signed byte widened to 16 bits.
pub open spec fn sign_extend(value: u8) -> u16 {
    if value >= 128 {
        (value as int + 0xff00) as u16
    } else {
        value as u16
    }
}

/// Function to convert a byte to a u16 when the value is signed
pub fn signed_8_bit_to_16(value: u8) -> (r: u16)
    ensures
        r == sign_extend(value),
{
    if value >= 128 {
        value as u16 + 0xff00
    } else {
        value as u16
    }
}

/// The destination of a branch by `offset` from `pc`, wrapping around the address space.
pub open spec fn branch_target(pc: u16, offset: u8) -> u16 {
    sign_extend(offset).wrapping_add(pc)
}

/// The cycles a taken branch adds: one, or two when it lands on another page.
pub open spec fn branch_cost(pc: u16, target: u16) -> u8 {
    if page(target) != page(pc) {
        2
    } else {
        1
    }
}

/// The state after a branch by `offset` on `condition`: unchanged when the condition is false.
pub open spec fn branched(cpu: MOS6502, condition: bool, offset: u8) -> MOS6502 {
    let target = branch_target(cpu.program_counter, offset);
    if condition {
        MOS6502 {
            program_counter: target,
            remaining_cycles: (cpu.remaining_cycles + branch_cost(cpu.program_counter, target)) as u8,
            ..cpu
        }
    } else {
        cpu
    }
}

/// General purpose function for branch opcodes
pub fn branch(cpu: &mut MOS6502, branch_condition: bool, address_mode_value: AddressModeValue)
    requires
        address_mode_value is RelativeAddress,
        old(cpu).remaining_cycles < 254,
    ensures
        *final(cpu) == branched(
            *old(cpu),
            branch_condition,
            address_mode_value->RelativeAddress_0,
        ),
{
    let address = signed_8_bit_to_16(address_mode_value.offset()).wrapping_add(cpu.program_counter);
    if branch_condition {
        if crate::address_modes::page_crossed(address, cpu.program_counter) {
            cpu.remaining_cycles = cpu.remaining_cycles + 2;
        } else {
            cpu.remaining_cycles = cpu.remaining_cycles + 1;
        }
        cpu.program_counter = address;
    }
}

/// The contract shared by the branch instructions on the flag `flag` being `when`.
pub open spec fn branches_on<B: Interface6502>(
    b: B,
    a: B,
    address_mode_value: AddressModeValue,
    before: MOS6502,
    after: MOS6502,
    flag: StatusFlag,
    when: bool,
) -> bool {
    &&& a.accesses() == b.accesses()
    &&& after == branched(
        before,
        flag_of(before.status_register, flag) == when,
        address_mode_value->RelativeAddress_0,
    )
}

/// BCC: Branch if the carry bit is clear
pub fn bcc<B: Interface6502>(cpu: &mut MOS6502, bus: &mut B, address_mode_value: AddressModeValue)
    requires
        address_mode_value is RelativeAddress,
        old(cpu).remaining_cycles < 254,
    ensures
        branches_on(*old(bus), *final(bus), address_mode_value, *old(cpu), *final(cpu), StatusFlag::Carry, false),
{
    let condition = !cpu.get_flag(StatusFlag::Carry);
    branch(cpu, condition, address_mode_value);
}

/// BCS: Branch if the carry bit is set
pub fn bcs<B: Interface6502>(cpu: &mut MOS6502, bus: &mut B, address_mode_value: AddressModeValue)
    requires
        address_mode_value is RelativeAddress,
        old(cpu).remaining_cycles < 254,
    ensures
        branches_on(*old(bus), *final(bus), address_mode_value, *old(cpu), *final(cpu), StatusFlag::Carry, true),
{
    let condition = cpu.get_flag(StatusFlag::Carry);
    branch(cpu, condition, address_mode_value);
}

/// BEQ: Branch if the zero bit is set (branch if equal)
pub fn beq<B: Interface6502>(cpu: &mut MOS6502, bus: &mut B, address_mode_value: AddressModeValue)
    requires
        address_mode_value is RelativeAddress,
        old(cpu).remaining_cycles < 254,
    ensures
        branches_on(*old(bus), *final(bus), address_mode_value, *old(cpu), *final(cpu), StatusFlag::Zero, true),
{
    let condition = cpu.get_flag(StatusFlag::Zero);
    branch(cpu, condition, address_mode_value);
}

/// BMI: Branch if the negative bit is set (branch if negative)
pub fn bmi<B: Interface6502>(cpu: &mut MOS6502, bus: &mut B, address_mode_value: AddressModeValue)
    requires
        address_mode_value is RelativeAddress,
        old(cpu).remaining_cycles < 254,
    ensures
        branches_on(*old(bus), *final(bus), address_mode_value, *old(cpu), *final(cpu), StatusFlag::Negative, true),
{
    let condition = cpu.get_flag(StatusFlag::Negative);
    branch(cpu, condition, address_mode_value);
}

/// BNE: Branch if the zero bit is clear (branch if not equal)
pub fn bne<B: Interface6502>(cpu: &mut MOS6502, bus: &mut B, address_mode_value: AddressModeValue)
    requires
        address_mode_value is RelativeAddress,
        old(cpu).remaining_cycles < 254,
    ensures
        branches_on(*old(bus), *final(bus), address_mode_value, *old(cpu), *final(cpu), StatusFlag::Zero, false),
{
    let condition = !cpu.get_flag(StatusFlag::Zero);
    branch(cpu, condition, address_mode_value);
}

/// BPL: Branch if the negative bit is clear (branch if positive)
pub fn bpl<B: Interface6502>(cpu: &mut MOS6502, bus: &mut B, address_mode_value: AddressModeValue)
    requires
        address_mode_value is RelativeAddress,
        old(cpu).remaining_cycles < 254,
    ensures
        branches_on(*old(bus), *final(bus), address_mode_value, *old(cpu), *final(cpu), StatusFlag::Negative, false),
{
    let condition = !cpu.get_flag(StatusFlag::Negative);
    branch(cpu, condition, address_mode_value);
}

/// BVC: Branch if the overflow bit is clear
pub fn bvc<B: Interface6502>(cpu: &mut MOS6502, bus: &mut B, address_mode_value: AddressModeValue)
    requires
        address_mode_value is RelativeAddress,
        old(cpu).remaining_cycles < 254,
    ensures
        branches_on(*old(bus), *final(bus), address_mode_value, *old(cpu), *final(cpu), StatusFlag::Overflow, false),
{
    let condition = !cpu.get_flag(StatusFlag::Overflow);
    branch(cpu, condition, address_mode_value);
}

/// BVS: Branch if the overflow bit is set
pub fn bvs<B: Interface6502>(cpu: &mut MOS6502, bus: &mut B, address_mode_value: AddressModeValue)
    requires
        address_mode_value is RelativeAddress,
        old(cpu).remaining_cycles < 254,
    ensures
        branches_on(*old(bus), *final(bus), address_mode_value, *old(cpu), *final(cpu), StatusFlag::Overflow, true),
{
    let condition = cpu.get_flag(StatusFlag::Overflow);
    branch(cpu, condition, address_mode_value);
}

// Flags --------------------------------------------------------------------------------------
/// The contract shared by the instructions that touch neither memory nor anything but one flag.
pub open spec fn sets_flag<B: Interface6502>(
    b: B,
    a: B,
    before: MOS6502,
    after: MOS6502,
    flag: StatusFlag,
    value: bool,
) -> bool {
    &&& a.accesses() == b.accesses()
    &&& after == set_flag_state(before, flag, value)
}

/// CLC: Clear carry bit
pub fn clc<B: Interface6502>(cpu: &mut MOS6502, bus: &mut B, address_mode_value: AddressModeValue)
    ensures
        sets_flag(*old(bus), *final(bus), *old(cpu), *final(cpu), StatusFlag::Carry, false),
{
    cpu.set_flag(StatusFlag::Carry, false);
}

/// CLD: Clear decimal mode bit
pub fn cld<B: Interface6502>(cpu: &mut MOS6502, bus: &mut B, address_mode_value: AddressModeValue)
    ensures
        sets_flag(*old(bus), *final(bus), *old(cpu), *final(cpu), StatusFlag::Decimal, false),
{
    cpu.set_flag(StatusFlag::Decimal, false);
}

/// CLI: Clear interrupt disable bit
pub fn cli<B: Interface6502>(cpu: &mut MOS6502, bus: &mut B, address_mode_value: AddressModeValue)
    ensures
        sets_flag(*old(bus), *final(bus), *old(cpu), *final(cpu), StatusFlag::InterruptDisable, false),
{
    cpu.set_flag(StatusFlag::InterruptDisable, false);
}

/// CLV: Clear overflow bit
pub fn clv<B: Interface6502>(cpu: &mut MOS6502, bus: &mut B, address_mode_value: AddressModeValue)
    ensures
        sets_flag(*old(bus), *final(bus), *old(cpu), *final(cpu), StatusFlag::Overflow, false),
{
    cpu.set_flag(StatusFlag::Overflow, false);
}

/// SEC: Sets the carry bit to one
pub fn sec<B: Interface6502>(cpu: &mut MOS6502, bus: &mut B, address_mode_value: AddressModeValue)
    ensures
        sets_flag(*old(bus), *final(bus), *old(cpu), *final(cpu), StatusFlag::Carry, true),
{
    cpu.set_flag(StatusFlag::Carry, true);
}

/// SED: Sets the decimal bit to one
pub fn sed<B: Interface6502>(cpu: &mut MOS6502, bus: &mut B, address_mode_value: AddressModeValue)
    ensures
        sets_flag(*old(bus), *final(bus), *old(cpu), *final(cpu), StatusFlag::Decimal, true),
{
    cpu.set_flag(StatusFlag::Decimal, true);
}

/// SEI: Sets the interrupt disable bit to one
pub fn sei<B: Interface6502>(cpu: &mut MOS6502, bus: &mut B, address_mode_value: AddressModeValue)
    ensures
        sets_flag(*old(bus), *final(bus), *old(cpu), *final(cpu), StatusFlag::InterruptDisable, true),
{
    cpu.set_flag(StatusFlag::InterruptDisable, true);
}

// Registers ----------------------------------------------------------------------------------
/// The contract shared by the instructions that touch no memory and compute a new state.
pub open spec fn internal<B: Interface6502>(b: B, a: B, after: MOS6502, next: MOS6502) -> bool {
    &&& a.accesses() == b.accesses()
    &&& after == next
}

/// DEX: Subtract one from the x register
pub fn dex<B: Interface6502>(cpu: &mut MOS6502, bus: &mut B, address_mode_value: AddressModeValue)
    requires
        address_mode_value is Implied,
    ensures
        internal(*old(bus), *final(bus), *final(cpu), load_x(*old(cpu), old(cpu).x_register.wrapping_sub(1))),
{
    cpu.x_register = cpu.x_register.wrapping_sub(1);
    cpu.set_zero_negative(cpu.x_register);
}

/// DEY: Subtract one from the y register
pub fn dey<B: Interface6502>(cpu: &mut MOS6502, bus: &mut B, address_mode_value: AddressModeValue)
    requires
        address_mode_value is Implied,
    ensures
        internal(*old(bus), *final(bus), *final(cpu), load_y(*old(cpu), old(cpu).y_register.wrapping_sub(1))),
{
    cpu.y_register = cpu.y_register.wrapping_sub(1);
    cpu.set_zero_negative(cpu.y_register);
}

/// INX: Add one to the x register
pub fn inx<B: Interface6502>(cpu: &mut MOS6502, bus: &mut B, address_mode_value: AddressModeValue)
    requires
        address_mode_value is Implied,
    ensures
        internal(*old(bus), *final(bus), *final(cpu), load_x(*old(cpu), old(cpu).x_register.wrapping_add(1))),
{
    cpu.x_register = cpu.x_register.wrapping_add(1);
    cpu.set_zero_negative(cpu.x_register);
}

/// INY: Add one to the y register
pub fn iny<B: Interface6502>(cpu: &mut MOS6502, bus: &mut B, address_mode_value: AddressModeValue)
    requires
        address_mode_value is Implied,
    ensures
        internal(*old(bus), *final(bus), *final(cpu), load_y(*old(cpu), old(cpu).y_register.wrapping_add(1))),
{
    cpu.y_register = cpu.y_register.wrapping_add(1);
    cpu.set_zero_negative(cpu.y_register);
}

/// TAX: Transfer the accumulator into the x register
pub fn tax<B: Interface6502>(cpu: &mut MOS6502, bus: &mut B, address_mode_value: AddressModeValue)
    ensures
        internal(*old(bus), *final(bus), *final(cpu), load_x(*old(cpu), old(cpu).accumulator)),
{
    cpu.x_register = cpu.accumulator;
    cpu.set_zero_negative(cpu.x_register);
}

/// TAY: Transfer the accumulator into the y register
pub fn tay<B: Interface6502>(cpu: &mut MOS6502, bus: &mut B, address_mode_value: AddressModeValue)
    ensures
        internal(*old(bus), *final(bus), *final(cpu), load_y(*old(cpu), old(cpu).accumulator)),
{
    cpu.y_register = cpu.accumulator;
    cpu.set_zero_negative(cpu.y_register);
}

/// TSX: Transfer the stack pointer into the x register
pub fn tsx<B: Interface6502>(cpu: &mut MOS6502, bus: &mut B, address_mode_value: AddressModeValue)
    ensures
        internal(*old(bus), *final(bus), *final(cpu), load_x(*old(cpu), old(cpu).stack_pointer)),
{
    cpu.x_register = cpu.stack_pointer;
    cpu.set_zero_negative(cpu.x_register);
}

/// TXA: Transfer the x register into the accumulator
pub fn txa<B: Interface6502>(cpu: &mut MOS6502, bus: &mut B, address_mode_value: AddressModeValue)
    ensures
        internal(*old(bus), *final(bus), *final(cpu), load_accumulator(*old(cpu), old(cpu).x_register)),
{
    cpu.accumulator = cpu.x_register;
    cpu.set_zero_negative(cpu.accumulator);
}

/// TXS: Transfer the x register into the stack pointer, leaving the flags alone
pub fn txs<B: Interface6502>(cpu: &mut MOS6502, bus: &mut B, address_mode_value: AddressModeValue)
    ensures
        internal(*old(bus), *final(bus), *final(cpu), MOS6502 { stack_pointer: old(cpu).x_register, ..*old(cpu) }),
{
    cpu.stack_pointer = cpu.x_register;
}

/// TYA: Transfer the y register into the accumulator
pub fn tya<B: Interface6502>(cpu: &mut MOS6502, bus: &mut B, address_mode_value: AddressModeValue)
    ensures
        internal(*old(bus), *final(bus), *final(cpu), load_accumulator(*old(cpu), old(cpu).y_register)),
{
    cpu.accumulator = cpu.y_register;
    cpu.set_zero_negative(cpu.accumulator);
}

/// NOP: No operation
pub fn nop<B: Interface6502>(cpu: &mut MOS6502, bus: &mut B, address_mode_value: AddressModeValue)
    ensures
        internal(*old(bus), *final(bus), *final(cpu), *old(cpu)),
{
}

// Stores -------------------------------------------------------------------------------------
/// The contract shared by the stores: one write of `data` at the address, the state unchanged.
pub open spec fn stores<B: Interface6502>(
    b: B,
    a: B,
    address_mode_value: AddressModeValue,
    before: MOS6502,
    after: MOS6502,
    data: u8,
) -> bool {
    &&& a.accesses() == b.accesses().push(
        BusAccess::Write(address_mode_value->AbsoluteAddress_0, data),
    )
    &&& after == before
}

/// STA: Store the accumulator in the given memory address
pub fn sta<B: Interface6502>(cpu: &mut MOS6502, bus: &mut B, address_mode_value: AddressModeValue)
    requires
        address_mode_value is AbsoluteAddress,
    ensures
        stores(*old(bus), *final(bus), address_mode_value, *old(cpu), *final(cpu), old(cpu).accumulator),
{
    bus.write(address_mode_value.address(), cpu.accumulator);
}

/// STX: Store the x register in the given memory address
pub fn stx<B: Interface6502>(cpu: &mut MOS6502, bus: &mut B, address_mode_value: AddressModeValue)
    requires
        address_mode_value is AbsoluteAddress,
    ensures
        stores(*old(bus), *final(bus), address_mode_value, *old(cpu), *final(cpu), old(cpu).x_register),
{
    bus.write(address_mode_value.address(), cpu.x_register);
}

/// STY: Store the y register in the given memory address
pub fn sty<B: Interface6502>(cpu: &mut MOS6502, bus: &mut B, address_mode_value: AddressModeValue)
    requires
        address_mode_value is AbsoluteAddress,
    ensures
        stores(*old(bus), *final(bus), address_mode_value, *old(cpu), *final(cpu), old(cpu).y_register),
{
    bus.write(address_mode_value.address(), cpu.y_register);
}

// Stack and control flow -----------------------------------------------------------------------
/// The status byte that PLP makes of the live status `live` and the byte `pulled` from the stack:
/// every flag from the stack except the two break bits, which keep their live value.
pub open spec fn pulled_status(live: u8, pulled: u8) -> u8 {
    (live & StatusFlag::Break.mask()) | (pulled & !StatusFlag::Break.mask())
}

/// The status byte that PHP pushes: the live status with both break bits set.
pub open spec fn pushed_status(live: u8) -> u8 {
    live | StatusFlag::Break.mask()
}

/// PHA: Push the value of the accumulator onto the stack
pub fn pha<B: Interface6502>(cpu: &mut MOS6502, bus: &mut B, address_mode_value: AddressModeValue)
    ensures
        final(bus).accesses() == old(bus).accesses().push(
            BusAccess::Write(stack_address(old(cpu).stack_pointer), old(cpu).accumulator),
        ),
        *final(cpu) == (MOS6502 { stack_pointer: old(cpu).stack_pointer.wrapping_sub(1), ..*old(cpu) }),
{
    cpu.push_stack(bus, cpu.accumulator);
}

/// PHP: Push the status byte onto the stack, with both break bits set in the pushed copy only
pub fn php<B: Interface6502>(cpu: &mut MOS6502, bus: &mut B, address_mode_value: AddressModeValue)
    ensures
        final(bus).accesses() == old(bus).accesses().push(
            BusAccess::Write(
                stack_address(old(cpu).stack_pointer),
                pushed_status(old(cpu).status_register),
            ),
        ),
        *final(cpu) == (MOS6502 { stack_pointer: old(cpu).stack_pointer.wrapping_sub(1), ..*old(cpu) }),
{
    let status = cpu.status_register | StatusFlag::Break.mask();
    cpu.push_stack(bus, status);
}

/// PLA: Sets the accumulator to a value popped off the top of the stack
pub fn pla<B: Interface6502>(cpu: &mut MOS6502, bus: &mut B, address_mode_value: AddressModeValue)
    ensures
        ({
            let (b, a) = (old(bus).accesses(), final(bus).accesses());
            let sp = old(cpu).stack_pointer.wrapping_add(1);
            &&& a == b.push(BusAccess::Read(stack_address(sp), got(b, a, 0)))
            &&& *final(cpu) == load_accumulator(
                MOS6502 { stack_pointer: sp, ..*old(cpu) },
                got(b, a, 0),
            )
        }),
{
    cpu.accumulator = cpu.pop_stack(bus);
    cpu.set_zero_negative(cpu.accumulator);
}

/// PLP: Sets the status byte to a value popped off the top of the stack, except for the break
/// bits, which remain as they were
pub fn plp<B: Interface6502>(cpu: &mut MOS6502, bus: &mut B, address_mode_value: AddressModeValue)
    ensures
        ({
            let (b, a) = (old(bus).accesses(), final(bus).accesses());
            let sp = old(cpu).stack_pointer.wrapping_add(1);
            &&& a == b.push(BusAccess::Read(stack_address(sp), got(b, a, 0)))
            &&& *final(cpu) == (MOS6502 {
                stack_pointer: sp,
                status_register: pulled_status(old(cpu).status_register, got(b, a, 0)),
                ..*old(cpu)
            })
        }),
{
    let status = cpu.pop_stack(bus);
    cpu.status_register = (cpu.status_register & StatusFlag::Break.mask()) | (status
        & !StatusFlag::Break.mask());
}

/// JMP: Set the program counter to the given address
pub fn jmp<B: Interface6502>(cpu: &mut MOS6502, bus: &mut B, address_mode_value: AddressModeValue)
    requires
        address_mode_value is AbsoluteAddress,
    ensures
        internal(
            *old(bus),
            *final(bus),
            *final(cpu),
            MOS6502 { program_counter: address_mode_value->AbsoluteAddress_0, ..*old(cpu) },
        ),
{
    cpu.program_counter = address_mode_value.address();
}

/// JSR: Pushes the address of the last byte of the instruction (the program counter less one)
/// and then jumps to the given address
pub fn jsr<B: Interface6502>(cpu: &mut MOS6502, bus: &mut B, address_mode_value: AddressModeValue)
    requires
        address_mode_value is AbsoluteAddress,
    ensures
        final(bus).accesses() == old(bus).accesses() + push_16_writes(
            old(cpu).stack_pointer,
            old(cpu).program_counter.wrapping_sub(1),
        ),
        *final(cpu) == (MOS6502 {
            program_counter: address_mode_value->AbsoluteAddress_0,
            stack_pointer: old(cpu).stack_pointer.wrapping_sub(2),
            ..*old(cpu)
        }),
{
    cpu.push_stack_16(bus, cpu.program_counter.wrapping_sub(1));
    cpu.program_counter = address_mode_value.address();
}

/// RTS: Returns from a subroutine: pops the return address and continues after it
pub fn rts<B: Interface6502>(cpu: &mut MOS6502, bus: &mut B, address_mode_value: AddressModeValue)
    requires
        address_mode_value is Implied,
    ensures
        ({
            let (b, a) = (old(bus).accesses(), final(bus).accesses());
            &&& a == b + pop_16_reads(old(cpu).stack_pointer, got(b, a, 0), got(b, a, 1))
            &&& *final(cpu) == (MOS6502 {
                program_counter: word(got(b, a, 0), got(b, a, 1)).wrapping_add(1),
                stack_pointer: old(cpu).stack_pointer.wrapping_add(2),
                ..*old(cpu)
            })
        }),
{
    cpu.program_counter = cpu.pop_stack_16(bus).wrapping_add(1);
}

/// The accesses of RTI with the stack pointer at `sp`: the status, then the program counter, low
/// byte first.
pub open spec fn rti_reads(sp: u8, status: u8, lo: u8, hi: u8) -> Seq<BusAccess> {
    seq![BusAccess::Read(stack_address(sp.wrapping_add(1)), status)] + pop_16_reads(
        sp.wrapping_add(1),
        lo,
        hi,
    )
}

/// The state after RTI popped the status byte `status` and the program counter bytes `lo`, `hi`.
pub open spec fn returned_from_interrupt(cpu: MOS6502, status: u8, lo: u8, hi: u8) -> MOS6502 {
    MOS6502 {
        program_counter: word(lo, hi),
        stack_pointer: cpu.stack_pointer.wrapping_add(3),
        status_register: pulled_status(cpu.status_register, status),
        ..cpu
    }
}

/// RTI: Returns from an interrupt: pops the status (as PLP does) and then the program counter
pub fn rti<B: Interface6502>(cpu: &mut MOS6502, bus: &mut B, address_mode_value: AddressModeValue)
    ensures
        ({
            let (b, a) = (old(bus).accesses(), final(bus).accesses());
            &&& a == b + rti_reads(old(cpu).stack_pointer, got(b, a, 0), got(b, a, 1), got(b, a, 2))
            &&& *final(cpu) == returned_from_interrupt(*old(cpu), got(b, a, 0), got(b, a, 1), got(b, a, 2))
        }),
{
    plp(cpu, bus, address_mode_value);
    cpu.program_counter = cpu.pop_stack_16(bus);
    let ghost (b, a) = (old(bus).accesses(), bus.accesses());
    assert(a =~= b + rti_reads(old(cpu).stack_pointer, got(b, a, 0), got(b, a, 1), got(b, a, 2)));
}

/// The pushes of an interrupt sequence with the stack pointer at `sp`: the program counter `pc`,
/// high byte first, then the status byte `status`.
pub open spec fn interrupt_pushes(sp: u8, pc: u16, status: u8) -> Seq<BusAccess> {
    push_16_writes(sp, pc).push(BusAccess::Write(stack_address(sp.wrapping_sub(2)), status))
}

/// The accesses of an interrupt sequence with the stack pointer at `sp`: the program counter
/// `pc` and the status byte `status` pushed, then the vector at `vector` read.
pub open spec fn interrupt_accesses(sp: u8, pc: u16, status: u8, vector: u16, lo: u8, hi: u8) -> Seq<BusAccess> {
    interrupt_pushes(sp, pc, status) + seq![
        BusAccess::Read(vector, lo),
        BusAccess::Read(vector.wrapping_add(1), hi),
    ]
}

/// BRK: Force an interrupt: pushes the program counter plus one and the status with the break
/// bits set, sets InterruptDisable, and jumps through the interrupt vector
pub fn brk<B: Interface6502>(cpu: &mut MOS6502, bus: &mut B, address_mode_value: AddressModeValue)
    ensures
        ({
            let (b, a) = (old(bus).accesses(), final(bus).accesses());
            let status = with_flag(old(cpu).status_register, StatusFlag::Break, true);
            &&& a == b + interrupt_accesses(
                old(cpu).stack_pointer,
                old(cpu).program_counter.wrapping_add(1),
                status,
                IRQ_ADDRESS_LOCATION,
                got(b, a, 3),
                got(b, a, 4),
            )
            &&& *final(cpu) == (MOS6502 {
                program_counter: word(got(b, a, 3), got(b, a, 4)),
                stack_pointer: old(cpu).stack_pointer.wrapping_sub(3),
                status_register: with_flag(status, StatusFlag::InterruptDisable, true),
                ..*old(cpu)
            })
        }),
{
    cpu.push_stack_16(bus, cpu.program_counter.wrapping_add(1));
    cpu.set_flag(StatusFlag::Break, true);
    cpu.push_stack(bus, cpu.status_register);
    cpu.set_flag(StatusFlag::InterruptDisable, true);
    cpu.program_counter = read_16(bus, IRQ_ADDRESS_LOCATION);
    let ghost (b, a) = (old(bus).accesses(), bus.accesses());
    assert(a =~= b + interrupt_accesses(
        old(cpu).stack_pointer,
        old(cpu).program_counter.wrapping_add(1),
        with_flag(old(cpu).status_register, StatusFlag::Break, true),
        IRQ_ADDRESS_LOCATION,
        got(b, a, 3),
        got(b, a, 4),
    ));
}

} // verus!
