//! Properties of the instruction set that relate several steps or hold for all operands, proved
//! from the specifications of the instructions.
use crate::address_modes::{indirect_high_address, page, page_penalty};
use crate::bus::word;
use crate::cpu::{
    flag_of, lemma_with_flag_other, lemma_with_flag_same, pop_16_reads, push_16_writes,
    stack_address, with_flag, StatusFlag, MOS6502,
};
use crate::opcodes::{
    add_with_carry, arithmetic_flags, binary_sum, branch_target, branched, carry_in,
    decimal_active, decimal_difference, decimal_sum, interrupt_pushes, overflow, pulled_status,
    pushed_status, returned_from_interrupt, rti_reads, subtract_with_carry,
};
use vstd::prelude::*;

verus! {

/// Whether two flags share bits: only the two break flags do.
pub open spec fn overlapping(f: StatusFlag, g: StatusFlag) -> bool {
    (f == StatusFlag::Break || f == StatusFlag::BreakIrq) && (g == StatusFlag::Break || g
        == StatusFlag::BreakIrq)
}

/// The bits of flags that do not overlap are disjoint.
pub proof fn lemma_masks_disjoint(f: StatusFlag, g: StatusFlag)
    requires
        f != g,
        !overlapping(f, g),
    ensures
        f.mask() & g.mask() == 0,
{
    assert(0x01u8 & 0x02u8 == 0 && 0x01u8 & 0x04u8 == 0 && 0x01u8 & 0x08u8 == 0 && 0x01u8 & 0x30u8
        == 0 && 0x01u8 & 0x20u8 == 0 && 0x01u8 & 0x40u8 == 0 && 0x01u8 & 0x80u8 == 0 && 0x02u8
        & 0x01u8 == 0 && 0x02u8 & 0x04u8 == 0 && 0x02u8 & 0x08u8 == 0 && 0x02u8 & 0x30u8 == 0
        && 0x02u8 & 0x20u8 == 0 && 0x02u8 & 0x40u8 == 0 && 0x02u8 & 0x80u8 == 0 && 0x04u8 & 0x01u8
        == 0 && 0x04u8 & 0x02u8 == 0 && 0x04u8 & 0x08u8 == 0 && 0x04u8 & 0x30u8 == 0 && 0x04u8
        & 0x20u8 == 0 && 0x04u8 & 0x40u8 == 0 && 0x04u8 & 0x80u8 == 0 && 0x08u8 & 0x01u8 == 0
        && 0x08u8 & 0x02u8 == 0 && 0x08u8 & 0x04u8 == 0 && 0x08u8 & 0x30u8 == 0 && 0x08u8 & 0x20u8
        == 0 && 0x08u8 & 0x40u8 == 0 && 0x08u8 & 0x80u8 == 0 && 0x30u8 & 0x01u8 == 0 && 0x30u8
        & 0x02u8 == 0 && 0x30u8 & 0x04u8 == 0 && 0x30u8 & 0x08u8 == 0 && 0x30u8 & 0x40u8 == 0
        && 0x30u8 & 0x80u8 == 0 && 0x20u8 & 0x01u8 == 0 && 0x20u8 & 0x02u8 == 0 && 0x20u8 & 0x04u8
        == 0 && 0x20u8 & 0x08u8 == 0 && 0x20u8 & 0x40u8 == 0 && 0x20u8 & 0x80u8 == 0 && 0x40u8
        & 0x01u8 == 0 && 0x40u8 & 0x02u8 == 0 && 0x40u8 & 0x04u8 == 0 && 0x40u8 & 0x08u8 == 0
        && 0x40u8 & 0x30u8 == 0 && 0x40u8 & 0x20u8 == 0 && 0x40u8 & 0x80u8 == 0 && 0x80u8 & 0x01u8
        == 0 && 0x80u8 & 0x02u8 == 0 && 0x80u8 & 0x04u8 == 0 && 0x80u8 & 0x08u8 == 0 && 0x80u8
        & 0x30u8 == 0 && 0x80u8 & 0x20u8 == 0 && 0x80u8 & 0x40u8 == 0) by (bit_vector);
}

/// Reading a flag back after setting one: the value set for that flag, the old value for any
/// flag that does not overlap it.
pub proof fn lemma_read_back(status: u8, f: StatusFlag, value: bool, g: StatusFlag)
    requires
        f == g || !overlapping(f, g),
    ensures
        flag_of(with_flag(status, f, value), g) == if f == g {
            value
        } else {
            flag_of(status, g)
        },
{
    if f == g {
        lemma_with_flag_same(status, f, value);
    } else {
        lemma_masks_disjoint(f, g);
        lemma_with_flag_other(status, f, value, g);
    }
}

/// Reading a flag back after an addition's flags were set.
proof fn lemma_arithmetic_read_back(status: u8, carry: bool, a: u8, m: u8, r: u8, g: StatusFlag)
    requires
        g != StatusFlag::BreakIrq,
    ensures
        flag_of(arithmetic_flags(status, carry, a, m, r), g) == if g == StatusFlag::Carry {
            carry
        } else if g == StatusFlag::Zero {
            r == 0
        } else if g == StatusFlag::Overflow {
            overflow(a, m, r)
        } else if g == StatusFlag::Negative {
            r >= 128
        } else {
            flag_of(status, g)
        },
{
    let s1 = with_flag(status, StatusFlag::Carry, carry);
    let s2 = with_flag(s1, StatusFlag::Zero, r == 0);
    let s3 = with_flag(s2, StatusFlag::Overflow, overflow(a, m, r));
    lemma_read_back(status, StatusFlag::Carry, carry, g);
    lemma_read_back(s1, StatusFlag::Zero, r == 0, g);
    lemma_read_back(s2, StatusFlag::Overflow, overflow(a, m, r), g);
    lemma_read_back(s3, StatusFlag::Negative, r >= 128, g);
}

/// The sign-bit rule for overflow: the operands have one sign and the result the other.
pub proof fn lemma_overflow_signs(a: u8, m: u8, r: u8)
    ensures
        overflow(a, m, r) == ((a >= 128) == (m >= 128) && (r >= 128) != (a >= 128)),
{
    assert((!(a ^ m) & (a ^ r) & 0x80u8 != 0) == ((a >= 128) == (m >= 128) && (r >= 128) != (a
        >= 128))) by (bit_vector);
}

/// The indirect mode's page bug: the high byte of the target is read from the byte after the
/// pointer, except when the pointer is the last byte of a page, when it is read from the first
/// byte of that same page.
pub proof fn lemma_indirect_page_wrap(pointer: u16)
    ensures
        pointer % 256 == 255 ==> indirect_high_address(pointer) == pointer - 255,
        pointer % 256 != 255 ==> indirect_high_address(pointer) == pointer + 1,
{
    let n = pointer.wrapping_add(1);
    let p = pointer;
    assert(p & 0xff00u16 == p - p % 256 && n & 0x00ffu16 == n % 256 && (p & 0xff00u16) | (n
        & 0x00ffu16) == (p & 0xff00u16) + (n & 0x00ffu16)) by (bit_vector);
}

/// An indexed access costs its extra cycle exactly when the index carries the address onto
/// another page; the zero-page indexed modes never leave page zero.
pub proof fn lemma_indexed_addresses(base: u16, index: u8, zero_page_base: u8)
    ensures
        page_penalty(base, base.wrapping_add(index as u16)) == 1 <==> (base as int + index as int)
            / 256 != base as int / 256 || base as int + index as int >= 65536,
        page_penalty(base, base.wrapping_add(index as u16)) <= 1,
        (zero_page_base.wrapping_add(index) as u16) < 256,
{
}

/// ADC sets the flags by the documented formulas, for every accumulator, operand and carry: Carry
/// is the carry out of the sum, Zero and Negative come from the 8-bit result, Overflow is set
/// when the operands share a sign that the result does not; InterruptDisable, Decimal and the
/// break bits are untouched. In binary mode the result is the low byte of A + M + C and the carry
/// is set exactly when A + M + C exceeds 255; in decimal mode the result and the carry are those
/// of the digit-by-digit decimal sum, which on valid BCD operands is the BCD sum
/// (`lemma_decimal_sum_is_bcd`).
pub proof fn lemma_adc_flags(cpu: MOS6502, m: u8)
    ensures
        ({
            let after = add_with_carry(cpu, m);
            let (a, c) = (cpu.accumulator, carry_in(cpu));
            let (r, carry) = if decimal_active(cpu) {
                decimal_sum(a, m, c)
            } else {
                binary_sum(a, m, c)
            };
            &&& after.accumulator == r
            &&& flag_of(after.status_register, StatusFlag::Carry) == carry
            &&& flag_of(after.status_register, StatusFlag::Zero) == (r == 0)
            &&& flag_of(after.status_register, StatusFlag::Overflow) == ((a >= 128) == (m >= 128)
                && (r >= 128) != (a >= 128))
            &&& flag_of(after.status_register, StatusFlag::Negative) == (r >= 128)
            &&& flag_of(after.status_register, StatusFlag::InterruptDisable) == flag_of(
                cpu.status_register,
                StatusFlag::InterruptDisable,
            )
            &&& flag_of(after.status_register, StatusFlag::Decimal) == flag_of(
                cpu.status_register,
                StatusFlag::Decimal,
            )
            &&& flag_of(after.status_register, StatusFlag::Break) == flag_of(
                cpu.status_register,
                StatusFlag::Break,
            )
            &&& !decimal_active(cpu) ==> r as int == (a + m + c) % 256 && carry == (a + m + c
                > 255)
        }),
{
    let after = add_with_carry(cpu, m);
    let (a, c) = (cpu.accumulator, carry_in(cpu));
    let (r, carry) = if decimal_active(cpu) {
        decimal_sum(a, m, c)
    } else {
        binary_sum(a, m, c)
    };
    assert(after.status_register == arithmetic_flags(cpu.status_register, carry, a, m, r));
    lemma_arithmetic_read_back(cpu.status_register, carry, a, m, r, StatusFlag::Carry);
    lemma_arithmetic_read_back(cpu.status_register, carry, a, m, r, StatusFlag::Zero);
    lemma_arithmetic_read_back(cpu.status_register, carry, a, m, r, StatusFlag::Overflow);
    lemma_arithmetic_read_back(cpu.status_register, carry, a, m, r, StatusFlag::Negative);
    lemma_arithmetic_read_back(cpu.status_register, carry, a, m, r, StatusFlag::InterruptDisable);
    lemma_arithmetic_read_back(cpu.status_register, carry, a, m, r, StatusFlag::Decimal);
    lemma_arithmetic_read_back(cpu.status_register, carry, a, m, r, StatusFlag::Break);
    lemma_overflow_signs(a, m, r);
}

/// SBC sets the flags by the documented formulas, for every accumulator, operand and carry: it
/// adds the inverted operand, so Carry is set when no borrow occurred, Zero and Negative come from
/// the 8-bit result, Overflow follows the sign-bit rule on the inverted operand; InterruptDisable,
/// Decimal and the break bits are untouched. In binary mode the result is the low byte of
/// A - M - (1 - C) and the carry is set exactly when A >= M + (1 - C); in decimal mode the result
/// and the carry are those of the digit-by-digit decimal difference, which on valid BCD operands
/// is the BCD difference (`lemma_decimal_difference_is_bcd`).
pub proof fn lemma_sbc_flags(cpu: MOS6502, m: u8)
    ensures
        ({
            let after = subtract_with_carry(cpu, m);
            let (a, c) = (cpu.accumulator, carry_in(cpu));
            let (r, carry) = if decimal_active(cpu) {
                decimal_difference(a, m, c)
            } else {
                binary_sum(a, !m, c)
            };
            &&& after.accumulator == r
            &&& flag_of(after.status_register, StatusFlag::Carry) == carry
            &&& flag_of(after.status_register, StatusFlag::Zero) == (r == 0)
            &&& flag_of(after.status_register, StatusFlag::Overflow) == overflow(a, !m, r)
            &&& flag_of(after.status_register, StatusFlag::Negative) == (r >= 128)
            &&& flag_of(after.status_register, StatusFlag::InterruptDisable) == flag_of(
                cpu.status_register,
                StatusFlag::InterruptDisable,
            )
            &&& flag_of(after.status_register, StatusFlag::Decimal) == flag_of(
                cpu.status_register,
                StatusFlag::Decimal,
            )
            &&& flag_of(after.status_register, StatusFlag::Break) == flag_of(
                cpu.status_register,
                StatusFlag::Break,
            )
            &&& !decimal_active(cpu) ==> r as int == (a - m - (1 - c)) % 256 && carry == (a >= m
                + (1 - c))
        }),
{
    let after = subtract_with_carry(cpu, m);
    let (a, c) = (cpu.accumulator, carry_in(cpu));
    let inv = !m;
    assert(inv == 255 - m) by (bit_vector)
        requires
            inv == !m,
    ;
    let (r, carry) = if decimal_active(cpu) {
        decimal_difference(a, m, c)
    } else {
        binary_sum(a, inv, c)
    };
    assert(after.status_register == arithmetic_flags(cpu.status_register, carry, a, inv, r));
    lemma_arithmetic_read_back(cpu.status_register, carry, a, inv, r, StatusFlag::Carry);
    lemma_arithmetic_read_back(cpu.status_register, carry, a, inv, r, StatusFlag::Zero);
    lemma_arithmetic_read_back(cpu.status_register, carry, a, inv, r, StatusFlag::Overflow);
    lemma_arithmetic_read_back(cpu.status_register, carry, a, inv, r, StatusFlag::Negative);
    lemma_arithmetic_read_back(cpu.status_register, carry, a, inv, r, StatusFlag::InterruptDisable);
    lemma_arithmetic_read_back(cpu.status_register, carry, a, inv, r, StatusFlag::Decimal);
    lemma_arithmetic_read_back(cpu.status_register, carry, a, inv, r, StatusFlag::Break);
}

/// Whether a byte is a valid binary coded decimal number: both its digits at most 9.
pub open spec fn is_bcd(v: u8) -> bool {
    v % 16 <= 9 && v / 16 <= 9
}

/// The number that a binary coded decimal byte stands for.
pub open spec fn bcd_value(v: u8) -> int {
    (v / 16) as int * 10 + (v % 16) as int
}

/// The binary coded decimal byte for a number from 0 to 99.
pub open spec fn bcd_encoding(n: int) -> u8 {
    ((n / 10) * 16 + n % 10) as u8
}

/// Decimal addition is BCD addition: on valid BCD operands and a carry in, the result is the BCD
/// encoding of their sum modulo 100, and the carry out is set exactly when the sum reaches 100.
pub proof fn lemma_decimal_sum_is_bcd(a: u8, m: u8, c: u8)
    requires
        is_bcd(a),
        is_bcd(m),
        c <= 1,
    ensures
        ({
            let sum = bcd_value(a) + bcd_value(m) + c;
            decimal_sum(a, m, c) == (bcd_encoding(sum % 100), sum >= 100)
        }),
{
    let (al, ah, ml, mh) = ((a % 16) as int, (a / 16) as int, (m % 16) as int, (m / 16) as int);
    let low = al + ml + c;
    let k: int = if low > 9 {
        1
    } else {
        0
    };
    let high = ah + mh + k;
    let j: int = if high > 9 {
        1
    } else {
        0
    };
    let (hd, ld) = (high - 10 * j, low - 10 * k);
    if low > 9 {
        assert((low + 6) % 16 == ld && low + 6 > 15);
    } else {
        assert(low % 16 == ld && low <= 15);
    }
    if high > 9 {
        assert((high + 6) % 16 == hd && high + 6 > 15);
    } else {
        assert(high % 16 == hd && high <= 15);
    }
    assert(decimal_sum(a, m, c) == ((hd * 16 + ld) as u8, j == 1));
    assert(bcd_value(a) + bcd_value(m) + c == 100 * j + 10 * hd + ld);
    lemma_bcd_digits(hd, ld, j);
}

/// Decimal subtraction is BCD subtraction: on valid BCD operands and a carry in, the result is
/// the BCD encoding of A - M - (1 - C) modulo 100, and the carry out is set exactly when that
/// difference is not negative (no borrow).
pub proof fn lemma_decimal_difference_is_bcd(a: u8, m: u8, c: u8)
    requires
        is_bcd(a),
        is_bcd(m),
        c <= 1,
    ensures
        ({
            let difference = bcd_value(a) - bcd_value(m) - (1 - c);
            decimal_difference(a, m, c) == (bcd_encoding(difference % 100), difference >= 0)
        }),
{
    let (al, ah, ml, mh) = ((a % 16) as int, (a / 16) as int, (m % 16) as int, (m / 16) as int);
    assert(a as int == ah * 16 + al && m as int == mh * 16 + ml);
    let low = al - ml - (1 - c);
    let k: int = if low < 0 {
        1
    } else {
        0
    };
    let high = ah - mh - k;
    let j: int = if high < 0 {
        1
    } else {
        0
    };
    let (hd, ld) = (high + 10 * j, low + 10 * k);
    if low < 0 {
        assert((low - 6) % 16 == ld);
    } else {
        assert(low % 16 == ld);
    }
    if high < 0 {
        assert((high - 6) % 16 == hd);
    } else {
        assert(high % 16 == hd);
    }
    assert((a as int - m as int - (1 - c) >= 0) == (j == 0));
    assert(decimal_difference(a, m, c) == ((hd * 16 + ld) as u8, j == 0));
    assert(bcd_value(a) - bcd_value(m) - (1 - c) == -100 * j + 10 * hd + ld);
    lemma_bcd_digits(hd, ld, -j);
}

/// Two decimal digits, less or more a whole hundred, leave those digits modulo 100, and encode
/// as the byte with the high digit above the low one.
proof fn lemma_bcd_digits(high: int, low: int, hundreds: int)
    requires
        0 <= high <= 9,
        0 <= low <= 9,
        -1 <= hundreds <= 1,
    ensures
        (100 * hundreds + 10 * high + low) % 100 == 10 * high + low,
        bcd_encoding(10 * high + low) == (high * 16 + low) as u8,
{
    assert((10 * high + low) / 10 == high);
    assert((10 * high + low) % 10 == low);
}

/// A branch costs no cycle when its condition is false, one when it is taken to the same page,
/// two when it is taken to another page; a taken branch lands at the program counter moved by the
/// offset read as a signed byte, modulo the address space.
pub proof fn lemma_branch_cost(cpu: MOS6502, condition: bool, offset: u8)
    requires
        cpu.remaining_cycles < 254,
    ensures
        ({
            let after = branched(cpu, condition, offset);
            let pc = cpu.program_counter;
            let target = branch_target(pc, offset);
            &&& !condition ==> after == cpu
            &&& condition && page(target) == page(pc) ==> after.remaining_cycles
                == cpu.remaining_cycles + 1
            &&& condition && page(target) != page(pc) ==> after.remaining_cycles
                == cpu.remaining_cycles + 2
            &&& condition ==> after.program_counter == target
            &&& target as int == (pc as int + if offset >= 128 {
                offset as int - 256
            } else {
                offset as int
            }) % 65536
        }),
{
}

/// Pushing a word and then popping one reads back the two slots just written: the low byte from
/// the slot written second, the high byte from the slot written first. Where those slots hand
/// back what was written, the word popped is the word pushed; and the stack pointer returns to
/// its value before the push.
pub proof fn lemma_stack_round_trip_16(sp: u8, x: u16)
    ensures
        ({
            let pushes = push_16_writes(sp, x);
            let pops = pop_16_reads(sp.wrapping_sub(2), pushes[1].data(), pushes[0].data());
            &&& pops[0].address() == pushes[1].address()
            &&& pops[1].address() == pushes[0].address()
            &&& word(pops[0].data(), pops[1].data()) == x
            &&& sp.wrapping_sub(2).wrapping_add(2) == sp
        }),
{
}

/// Pushing a byte and then popping one reads back the slot just written and returns the stack
/// pointer to its value before the push.
pub proof fn lemma_stack_round_trip(sp: u8)
    ensures
        stack_address(sp.wrapping_sub(1).wrapping_add(1)) == stack_address(sp),
        sp.wrapping_sub(1).wrapping_add(1) == sp,
{
}

/// PHP followed by PLP (reading back the byte PHP pushed) leaves every bit of the status
/// register but the two break bits as it was when PHP ran; the break bits keep their value from
/// just before PLP.
pub proof fn lemma_php_plp(status: u8, live: u8)
    ensures
        pulled_status(live, pushed_status(status)) & !StatusFlag::Break.mask() == status
            & !StatusFlag::Break.mask(),
        pulled_status(live, pushed_status(status)) & StatusFlag::Break.mask() == live
            & StatusFlag::Break.mask(),
{
    let r = pulled_status(live, pushed_status(status));
    assert(((live & 0x30u8) | ((status | 0x30u8) & !0x30u8)) & !0x30u8 == status & !0x30u8)
        by (bit_vector);
    assert(((live & 0x30u8) | ((status | 0x30u8) & !0x30u8)) & 0x30u8 == live & 0x30u8)
        by (bit_vector);
}

/// BRK, then RTI once the handler has brought the stack pointer back: RTI reads the three slots
/// that BRK wrote, the status first and the return address after it. Where they hand back what
/// BRK wrote, the program counter returns to the address BRK pushed (one past the byte that
/// follows the BRK opcode), the stack pointer to its value before BRK, and every bit of the
/// status register but the two break bits to its value before BRK.
pub proof fn lemma_brk_rti(cpu: MOS6502, handler: MOS6502)
    requires
        handler.stack_pointer == cpu.stack_pointer.wrapping_sub(3),
    ensures
        ({
            let pushes = interrupt_pushes(
                cpu.stack_pointer,
                cpu.program_counter.wrapping_add(1),
                with_flag(cpu.status_register, StatusFlag::Break, true),
            );
            let (status, lo, hi) = (pushes[2].data(), pushes[1].data(), pushes[0].data());
            let pops = rti_reads(handler.stack_pointer, status, lo, hi);
            let back = returned_from_interrupt(handler, status, lo, hi);
            &&& pops[0].address() == pushes[2].address()
            &&& pops[1].address() == pushes[1].address()
            &&& pops[2].address() == pushes[0].address()
            &&& back.program_counter == cpu.program_counter.wrapping_add(1)
            &&& back.stack_pointer == cpu.stack_pointer
            &&& back.status_register & !StatusFlag::Break.mask() == cpu.status_register
                & !StatusFlag::Break.mask()
        }),
{
    let (s, h) = (cpu.status_register, handler.status_register);
    assert(((h & 0x30u8) | (((s & !0x30u8) | 0x30u8) & !0x30u8)) & !0x30u8 == s & !0x30u8)
        by (bit_vector);
    let x = cpu.program_counter.wrapping_add(1);
    assert(word((x % 256) as u8, (x / 256) as u8) == x);
}

} // verus!
