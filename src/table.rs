//! The dispatch table: for each of the 256 opcode bytes, the operation, the addressing mode and
//! the base cycle cost of the instruction it encodes.
use crate::address_modes::{
    absolute, absolute_x, absolute_x_const, absolute_y, absolute_y_const, immediate, implied,
    indirect, indirect_x, indirect_y, indirect_y_const, relative, resolves, zero_page,
    zero_page_x, zero_page_y, AddressMode, AddressModeValue,
};
use crate::bus::{got, word, BusAccess, Interface6502};
use crate::cpu::{
    pop_16_reads, push_16_writes, stack_address, with_flag, StatusFlag, IRQ_ADDRESS_LOCATION,
    MOS6502,
};
use crate::illegal::{
    ahx, alr, anc, arr, arr_result, axs, dcp, gated, high_byte, isc, kil, las, lax,
    modifies_then_reads, reads_twice, rla, rra, sax, shx, shy, slo, sre, tas, xaa,
};
use crate::opcodes::{
    adc, add_with_carry, and, asl, bcc, bcs, beq, bit, bit_test, bmi, bne, bpl, branch, branches_on,
    brk, bvc, bvs, carry_in, clc, cld, cli, clv, cmp, compared, cpx, cpy, dec, dex, dey, eor,
    flags_of_result, inc, internal, interrupt_accesses, inx, iny, jmp, jsr, lda, ldx, ldy,
    load_accumulator, load_x, load_y, lsr, modifies_operand, nop, one_read, ora, pha, php, pla, plp,
    pulled_status, pushed_status, returned_from_interrupt, rti_reads, reads_operand, rol, ror,
    rotate_left, rotate_right, rti, rts, sbc, sec, sed, sei, sets_flag, shift_left, shift_right,
    shifted, shifts, sta, stores, stx, sty, subtract_with_carry, tax, tay, tsx, txa, txs, tya, zn,
};
use vstd::prelude::*;

verus! {

/// The operations of the instruction set, documented and undocumented.
#[derive(Debug, Clone, Copy, PartialEq, Eq, Structural)]
pub enum Operation {
    Adc,
    Ahx,
    Alr,
    Anc,
    And,
    Arr,
    Asl,
    Axs,
    Bcc,
    Bcs,
    Beq,
    Bit,
    Bmi,
    Bne,
    Bpl,
    Brk,
    Bvc,
    Bvs,
    Clc,
    Cld,
    Cli,
    Clv,
    Cmp,
    Cpx,
    Cpy,
    Dcp,
    Dec,
    Dex,
    Dey,
    Eor,
    Inc,
    Inx,
    Iny,
    Isc,
    Jmp,
    Jsr,
    Kil,
    Las,
    Lax,
    Lda,
    Ldx,
    Ldy,
    Lsr,
    Nop,
    Ora,
    Pha,
    Php,
    Pla,
    Plp,
    Rla,
    Rol,
    Ror,
    Rra,
    Rti,
    Rts,
    Sax,
    Sbc,
    Sec,
    Sed,
    Sei,
    Shx,
    Shy,
    Slo,
    Sre,
    Sta,
    Stx,
    Sty,
    Tas,
    Tax,
    Tay,
    Tsx,
    Txa,
    Txs,
    Tya,
    Xaa,
}

/// Whether an operation is one of the undocumented ones, which act only when the processor's
/// `illegal_opcodes_enabled` option is on.
pub open spec fn undocumented(op: Operation) -> bool {
    match op {
        Operation::Ahx | Operation::Alr | Operation::Anc | Operation::Arr | Operation::Axs | Operation::Dcp | Operation::Isc | Operation::Kil | Operation::Las | Operation::Lax | Operation::Rla | Operation::Rra | Operation::Sax | Operation::Shx | Operation::Shy | Operation::Slo | Operation::Sre | Operation::Tas | Operation::Xaa => true,
        _ => false,
    }
}

impl Operation {
    /// Whether the operation is one of the undocumented ones.
    pub fn is_undocumented(self) -> (r: bool)
        ensures
            r == undocumented(self),
    {
        match self {
            Operation::Ahx | Operation::Alr | Operation::Anc | Operation::Arr | Operation::Axs | Operation::Dcp | Operation::Isc | Operation::Kil | Operation::Las | Operation::Lax | Operation::Rla | Operation::Rra | Operation::Sax | Operation::Shx | Operation::Shy | Operation::Slo | Operation::Sre | Operation::Tas | Operation::Xaa => true,
            _ => false,
        }
    }
}

/// The three shapes an operand can take.
#[derive(Debug, Clone, Copy, PartialEq, Eq, Structural)]
pub enum OperandKind {
    Implied,
    Relative,
    Address,
}

/// The shape of a resolved operand.
pub open spec fn kind_of(v: AddressModeValue) -> OperandKind {
    match v {
        AddressModeValue::Implied => OperandKind::Implied,
        AddressModeValue::RelativeAddress(_) => OperandKind::Relative,
        AddressModeValue::AbsoluteAddress(_) => OperandKind::Address,
    }
}

/// The shape of the operand that an addressing mode resolves.
pub open spec fn mode_kind(mode: AddressMode) -> OperandKind {
    match mode {
        AddressMode::Implied => OperandKind::Implied,
        AddressMode::Relative => OperandKind::Relative,
        _ => OperandKind::Address,
    }
}

/// Whether an operation can work on an operand of the given shape.
pub open spec fn accepts(op: Operation, kind: OperandKind) -> bool {
    match op {
        Operation::Adc | Operation::Ahx | Operation::Alr | Operation::Anc | Operation::And | Operation::Arr | Operation::Axs | Operation::Bit | Operation::Cmp | Operation::Cpx | Operation::Cpy | Operation::Dcp | Operation::Dec | Operation::Eor | Operation::Inc | Operation::Isc | Operation::Jmp | Operation::Jsr | Operation::Las | Operation::Lax | Operation::Lda | Operation::Ldx | Operation::Ldy | Operation::Ora | Operation::Rla | Operation::Rra | Operation::Sax | Operation::Sbc | Operation::Shx | Operation::Shy | Operation::Slo | Operation::Sre | Operation::Sta | Operation::Stx | Operation::Sty | Operation::Tas | Operation::Xaa => kind == OperandKind::Address,
        Operation::Dex | Operation::Dey | Operation::Inx | Operation::Iny | Operation::Rts => kind == OperandKind::Implied,
        Operation::Bcc | Operation::Bcs | Operation::Beq | Operation::Bmi | Operation::Bne | Operation::Bpl | Operation::Bvc | Operation::Bvs => kind == OperandKind::Relative,
        Operation::Asl | Operation::Lsr | Operation::Rol | Operation::Ror => kind != OperandKind::Relative,
        _ => true,
    }
}

/// What the operation `op` does on the operand `operand`: from the state `before` and the interface
/// `b` to the state `after` and the interface `a`.
#[verifier::opaque]
pub open spec fn performs<B: Interface6502>(
    op: Operation,
    b: B,
    a: B,
    before: MOS6502,
    after: MOS6502,
    operand: AddressModeValue,
) -> bool {
    match op {
        Operation::Adc => ({
            let (b, a) = (b.accesses(), a.accesses());
            &&& one_read(b, a, operand->AbsoluteAddress_0)
            &&& after == add_with_carry(before, got(b, a, 0))
        }),
        Operation::Ahx => gated(b, a, before, after, ({
            let address = operand->AbsoluteAddress_0;
            &&& a.accesses() == b.accesses().push(BusAccess::Write(
                address,
                before.accumulator & before.x_register & high_byte(address),
            ))
            &&& after == before
        })),
        Operation::Alr => gated(b, a, before, after, ({
            let (b, a) = (b.accesses(), a.accesses());
            let s = load_accumulator(before, before.accumulator & got(b, a, 0));
            &&& a == b.push(BusAccess::Read(operand->AbsoluteAddress_0, got(b, a, 0)))
            &&& after == shifted(s, shift_right(s.accumulator), true)
        })),
        Operation::Anc => gated(b, a, before, after, ({
            let (b, a) = (b.accesses(), a.accesses());
            let s = load_accumulator(before, before.accumulator & got(b, a, 0));
            &&& a == b.push(BusAccess::Read(operand->AbsoluteAddress_0, got(b, a, 0)))
            &&& after == (MOS6502 {
                status_register: with_flag(s.status_register, StatusFlag::Carry, s.accumulator >= 128),
                ..s
            })
        })),
        Operation::And => reads_operand(
            b,
            a,
            operand,
            before,
            after,
            |c: MOS6502, v: u8| load_accumulator(c, c.accumulator & v),
        ),
        Operation::Arr => gated(b, a, before, after, reads_twice(
            b,
            a,
            operand->AbsoluteAddress_0,
            before,
            after,
            |c: MOS6502, v1: u8, v2: u8| arr_result(c, v1, v2),
        )),
        Operation::Asl => shifts(
            b,
            a,
            operand,
            before,
            after,
            |v: u8, c: u8| shift_left(v),
        ),
        Operation::Axs => gated(b, a, before, after, ({
            let (b, a) = (b.accesses(), a.accesses());
            let masked = before.accumulator & before.x_register;
            &&& a == b.push(BusAccess::Read(operand->AbsoluteAddress_0, got(b, a, 0)))
            &&& after == (MOS6502 {
                x_register: masked.wrapping_sub(got(b, a, 0)),
                ..compared(before, masked, got(b, a, 0))
            })
        })),
        Operation::Bcc => branches_on(b, a, operand, before, after, StatusFlag::Carry, false),
        Operation::Bcs => branches_on(b, a, operand, before, after, StatusFlag::Carry, true),
        Operation::Beq => branches_on(b, a, operand, before, after, StatusFlag::Zero, true),
        Operation::Bit => reads_operand(
            b,
            a,
            operand,
            before,
            after,
            |c: MOS6502, v: u8| bit_test(c, v),
        ),
        Operation::Bmi => branches_on(b, a, operand, before, after, StatusFlag::Negative, true),
        Operation::Bne => branches_on(b, a, operand, before, after, StatusFlag::Zero, false),
        Operation::Bpl => branches_on(b, a, operand, before, after, StatusFlag::Negative, false),
        Operation::Brk => ({
            let (b, a) = (b.accesses(), a.accesses());
            let status = with_flag(before.status_register, StatusFlag::Break, true);
            &&& a == b + interrupt_accesses(
                before.stack_pointer,
                before.program_counter.wrapping_add(1),
                status,
                IRQ_ADDRESS_LOCATION,
                got(b, a, 3),
                got(b, a, 4),
            )
            &&& after == (MOS6502 {
                program_counter: word(got(b, a, 3), got(b, a, 4)),
                stack_pointer: before.stack_pointer.wrapping_sub(3),
                status_register: with_flag(status, StatusFlag::InterruptDisable, true),
                ..before
            })
        }),
        Operation::Bvc => branches_on(b, a, operand, before, after, StatusFlag::Overflow, false),
        Operation::Bvs => branches_on(b, a, operand, before, after, StatusFlag::Overflow, true),
        Operation::Clc => sets_flag(b, a, before, after, StatusFlag::Carry, false),
        Operation::Cld => sets_flag(b, a, before, after, StatusFlag::Decimal, false),
        Operation::Cli => sets_flag(b, a, before, after, StatusFlag::InterruptDisable, false),
        Operation::Clv => sets_flag(b, a, before, after, StatusFlag::Overflow, false),
        Operation::Cmp => reads_operand(
            b,
            a,
            operand,
            before,
            after,
            |c: MOS6502, v: u8| compared(c, c.accumulator, v),
        ),
        Operation::Cpx => reads_operand(
            b,
            a,
            operand,
            before,
            after,
            |c: MOS6502, v: u8| compared(c, c.x_register, v),
        ),
        Operation::Cpy => reads_operand(
            b,
            a,
            operand,
            before,
            after,
            |c: MOS6502, v: u8| compared(c, c.y_register, v),
        ),
        Operation::Dcp => gated(b, a, before, after, modifies_then_reads(
            b,
            a,
            operand->AbsoluteAddress_0,
            before,
            after,
            |v: u8| v.wrapping_sub(1),
            |c: MOS6502, v1: u8, v2: u8|
                compared(flags_of_result(c, v1.wrapping_sub(1)), c.accumulator, v2),
        )),
        Operation::Dec => modifies_operand(
            b,
            a,
            operand,
            before,
            after,
            |v: u8| v.wrapping_sub(1),
            |c: MOS6502, v: u8| flags_of_result(c, v.wrapping_sub(1)),
        ),
        Operation::Dex => internal(b, a, after, load_x(before, before.x_register.wrapping_sub(1))),
        Operation::Dey => internal(b, a, after, load_y(before, before.y_register.wrapping_sub(1))),
        Operation::Eor => reads_operand(
            b,
            a,
            operand,
            before,
            after,
            |c: MOS6502, v: u8| load_accumulator(c, c.accumulator ^ v),
        ),
        Operation::Inc => modifies_operand(
            b,
            a,
            operand,
            before,
            after,
            |v: u8| v.wrapping_add(1),
            |c: MOS6502, v: u8| flags_of_result(c, v.wrapping_add(1)),
        ),
        Operation::Inx => internal(b, a, after, load_x(before, before.x_register.wrapping_add(1))),
        Operation::Iny => internal(b, a, after, load_y(before, before.y_register.wrapping_add(1))),
        Operation::Isc => gated(b, a, before, after, modifies_then_reads(
            b,
            a,
            operand->AbsoluteAddress_0,
            before,
            after,
            |v: u8| v.wrapping_add(1),
            |c: MOS6502, v1: u8, v2: u8|
                subtract_with_carry(flags_of_result(c, v1.wrapping_add(1)), v2),
        )),
        Operation::Jmp => internal(
            b,
            a,
            after,
            MOS6502 { program_counter: operand->AbsoluteAddress_0, ..before },
        ),
        Operation::Jsr => {
            &&& a.accesses() == b.accesses() + push_16_writes(
                before.stack_pointer,
                before.program_counter.wrapping_sub(1),
            )
            &&& after == (MOS6502 {
                program_counter: operand->AbsoluteAddress_0,
                stack_pointer: before.stack_pointer.wrapping_sub(2),
                ..before
            })
        },
        Operation::Kil => gated(b, a, before, after,
            a.accesses() == b.accesses() && after == (MOS6502 {
                program_counter: before.program_counter.wrapping_sub(1),
                ..before
            })),
        Operation::Las => gated(b, a, before, after, ({
            let (b, a) = (b.accesses(), a.accesses());
            let value = got(b, a, 0) & before.stack_pointer;
            &&& a == b.push(BusAccess::Read(operand->AbsoluteAddress_0, got(b, a, 0)))
            &&& after == (MOS6502 {
                accumulator: value,
                x_register: value,
                stack_pointer: value,
                status_register: crate::opcodes::zn(before.status_register, value),
                ..before
            })
        })),
        Operation::Lax => gated(b, a, before, after, reads_twice(
            b,
            a,
            operand->AbsoluteAddress_0,
            before,
            after,
            |c: MOS6502, v1: u8, v2: u8| load_x(load_accumulator(c, v1), v2),
        )),
        Operation::Lda => reads_operand(
            b,
            a,
            operand,
            before,
            after,
            |c: MOS6502, v: u8| load_accumulator(c, v),
        ),
        Operation::Ldx => reads_operand(
            b,
            a,
            operand,
            before,
            after,
            |c: MOS6502, v: u8| load_x(c, v),
        ),
        Operation::Ldy => reads_operand(
            b,
            a,
            operand,
            before,
            after,
            |c: MOS6502, v: u8| load_y(c, v),
        ),
        Operation::Lsr => shifts(
            b,
            a,
            operand,
            before,
            after,
            |v: u8, c: u8| shift_right(v),
        ),
        Operation::Nop => internal(b, a, after, before),
        Operation::Ora => reads_operand(
            b,
            a,
            operand,
            before,
            after,
            |c: MOS6502, v: u8| load_accumulator(c, c.accumulator | v),
        ),
        Operation::Pha => {
            &&& a.accesses() == b.accesses().push(
                BusAccess::Write(stack_address(before.stack_pointer), before.accumulator),
            )
            &&& after == (MOS6502 { stack_pointer: before.stack_pointer.wrapping_sub(1), ..before })
        },
        Operation::Php => {
            &&& a.accesses() == b.accesses().push(
                BusAccess::Write(
                    stack_address(before.stack_pointer),
                    pushed_status(before.status_register),
                ),
            )
            &&& after == (MOS6502 { stack_pointer: before.stack_pointer.wrapping_sub(1), ..before })
        },
        Operation::Pla => ({
            let (b, a) = (b.accesses(), a.accesses());
            let sp = before.stack_pointer.wrapping_add(1);
            &&& a == b.push(BusAccess::Read(stack_address(sp), got(b, a, 0)))
            &&& after == load_accumulator(
                MOS6502 { stack_pointer: sp, ..before },
                got(b, a, 0),
            )
        }),
        Operation::Plp => ({
            let (b, a) = (b.accesses(), a.accesses());
            let sp = before.stack_pointer.wrapping_add(1);
            &&& a == b.push(BusAccess::Read(stack_address(sp), got(b, a, 0)))
            &&& after == (MOS6502 {
                stack_pointer: sp,
                status_register: pulled_status(before.status_register, got(b, a, 0)),
                ..before
            })
        }),
        Operation::Rla => gated(b, a, before, after, modifies_then_reads(
            b,
            a,
            operand->AbsoluteAddress_0,
            before,
            after,
            |v: u8| rotate_left(v, carry_in(before)).0,
            |c: MOS6502, v1: u8, v2: u8| {
                let s = shifted(c, rotate_left(v1, carry_in(c)), false);
                load_accumulator(s, s.accumulator & v2)
            },
        )),
        Operation::Rol => shifts(
            b,
            a,
            operand,
            before,
            after,
            |v: u8, c: u8| rotate_left(v, c),
        ),
        Operation::Ror => shifts(
            b,
            a,
            operand,
            before,
            after,
            |v: u8, c: u8| rotate_right(v, c),
        ),
        Operation::Rra => gated(b, a, before, after, modifies_then_reads(
            b,
            a,
            operand->AbsoluteAddress_0,
            before,
            after,
            |v: u8| rotate_right(v, carry_in(before)).0,
            |c: MOS6502, v1: u8, v2: u8|
                add_with_carry(shifted(c, rotate_right(v1, carry_in(c)), false), v2),
        )),
        Operation::Rti => ({
            let (b, a) = (b.accesses(), a.accesses());
            &&& a == b + rti_reads(before.stack_pointer, got(b, a, 0), got(b, a, 1), got(b, a, 2))
            &&& after == returned_from_interrupt(before, got(b, a, 0), got(b, a, 1), got(b, a, 2))
        }),
        Operation::Rts => ({
            let (b, a) = (b.accesses(), a.accesses());
            &&& a == b + pop_16_reads(before.stack_pointer, got(b, a, 0), got(b, a, 1))
            &&& after == (MOS6502 {
                program_counter: word(got(b, a, 0), got(b, a, 1)).wrapping_add(1),
                stack_pointer: before.stack_pointer.wrapping_add(2),
                ..before
            })
        }),
        Operation::Sax => gated(b, a, before, after,
            a.accesses() == b.accesses().push(BusAccess::Write(
                operand->AbsoluteAddress_0,
                before.accumulator & before.x_register,
            )) && after == before),
        Operation::Sbc => ({
            let (b, a) = (b.accesses(), a.accesses());
            &&& one_read(b, a, operand->AbsoluteAddress_0)
            &&& after == subtract_with_carry(before, got(b, a, 0))
        }),
        Operation::Sec => sets_flag(b, a, before, after, StatusFlag::Carry, true),
        Operation::Sed => sets_flag(b, a, before, after, StatusFlag::Decimal, true),
        Operation::Sei => sets_flag(b, a, before, after, StatusFlag::InterruptDisable, true),
        Operation::Shx => gated(b, a, before, after, ({
            let address = operand->AbsoluteAddress_0;
            &&& a.accesses() == b.accesses().push(BusAccess::Write(
                address,
                before.x_register & high_byte(address),
            ))
            &&& after == before
        })),
        Operation::Shy => gated(b, a, before, after, ({
            let address = operand->AbsoluteAddress_0;
            &&& a.accesses() == b.accesses().push(BusAccess::Write(
                address,
                before.y_register & high_byte(address),
            ))
            &&& after == before
        })),
        Operation::Slo => gated(b, a, before, after, modifies_then_reads(
            b,
            a,
            operand->AbsoluteAddress_0,
            before,
            after,
            |v: u8| shift_left(v).0,
            |c: MOS6502, v1: u8, v2: u8| {
                let s = shifted(c, shift_left(v1), false);
                load_accumulator(s, s.accumulator | v2)
            },
        )),
        Operation::Sre => gated(b, a, before, after, modifies_then_reads(
            b,
            a,
            operand->AbsoluteAddress_0,
            before,
            after,
            |v: u8| shift_right(v).0,
            |c: MOS6502, v1: u8, v2: u8| {
                let s = shifted(c, shift_right(v1), false);
                load_accumulator(s, s.accumulator ^ v2)
            },
        )),
        Operation::Sta => stores(b, a, operand, before, after, before.accumulator),
        Operation::Stx => stores(b, a, operand, before, after, before.x_register),
        Operation::Sty => stores(b, a, operand, before, after, before.y_register),
        Operation::Tas => gated(b, a, before, after, ({
            let address = operand->AbsoluteAddress_0;
            let masked = before.accumulator & before.x_register;
            &&& a.accesses() == b.accesses().push(BusAccess::Write(
                address,
                masked & high_byte(address),
            ))
            &&& after == (MOS6502 { stack_pointer: masked, ..before })
        })),
        Operation::Tax => internal(b, a, after, load_x(before, before.accumulator)),
        Operation::Tay => internal(b, a, after, load_y(before, before.accumulator)),
        Operation::Tsx => internal(b, a, after, load_x(before, before.stack_pointer)),
        Operation::Txa => internal(b, a, after, load_accumulator(before, before.x_register)),
        Operation::Txs => internal(b, a, after, MOS6502 { stack_pointer: before.x_register, ..before }),
        Operation::Tya => internal(b, a, after, load_accumulator(before, before.y_register)),
        Operation::Xaa => gated(b, a, before, after, ({
            let (b, a) = (b.accesses(), a.accesses());
            let s = load_accumulator(before, before.x_register);
            &&& a == b.push(BusAccess::Read(operand->AbsoluteAddress_0, got(b, a, 0)))
            &&& after == load_accumulator(s, s.accumulator & got(b, a, 0))
        })),
    }
}

/// Runs an operation on a resolved operand.
pub fn execute<B: Interface6502>(op: Operation, cpu: &mut MOS6502, bus: &mut B, v: AddressModeValue)
    requires
        accepts(op, kind_of(v)),
        old(cpu).remaining_cycles <= 1,
    ensures
        performs(op, *old(bus), *final(bus), *old(cpu), *final(cpu), v),
        final(cpu).remaining_cycles <= old(cpu).remaining_cycles + 2,
        final(cpu).total_cycles == old(cpu).total_cycles,
{
    reveal(performs);
    match op {
        Operation::Adc => adc(cpu, bus, v),
        Operation::Ahx => ahx(cpu, bus, v),
        Operation::Alr => alr(cpu, bus, v),
        Operation::Anc => anc(cpu, bus, v),
        Operation::And => and(cpu, bus, v),
        Operation::Arr => arr(cpu, bus, v),
        Operation::Asl => asl(cpu, bus, v),
        Operation::Axs => axs(cpu, bus, v),
        Operation::Bcc => bcc(cpu, bus, v),
        Operation::Bcs => bcs(cpu, bus, v),
        Operation::Beq => beq(cpu, bus, v),
        Operation::Bit => bit(cpu, bus, v),
        Operation::Bmi => bmi(cpu, bus, v),
        Operation::Bne => bne(cpu, bus, v),
        Operation::Bpl => bpl(cpu, bus, v),
        Operation::Brk => brk(cpu, bus, v),
        Operation::Bvc => bvc(cpu, bus, v),
        Operation::Bvs => bvs(cpu, bus, v),
        Operation::Clc => clc(cpu, bus, v),
        Operation::Cld => cld(cpu, bus, v),
        Operation::Cli => cli(cpu, bus, v),
        Operation::Clv => clv(cpu, bus, v),
        Operation::Cmp => cmp(cpu, bus, v),
        Operation::Cpx => cpx(cpu, bus, v),
        Operation::Cpy => cpy(cpu, bus, v),
        Operation::Dcp => dcp(cpu, bus, v),
        Operation::Dec => dec(cpu, bus, v),
        Operation::Dex => dex(cpu, bus, v),
        Operation::Dey => dey(cpu, bus, v),
        Operation::Eor => eor(cpu, bus, v),
        Operation::Inc => inc(cpu, bus, v),
        Operation::Inx => inx(cpu, bus, v),
        Operation::Iny => iny(cpu, bus, v),
        Operation::Isc => isc(cpu, bus, v),
        Operation::Jmp => jmp(cpu, bus, v),
        Operation::Jsr => jsr(cpu, bus, v),
        Operation::Kil => kil(cpu, bus, v),
        Operation::Las => las(cpu, bus, v),
        Operation::Lax => lax(cpu, bus, v),
        Operation::Lda => lda(cpu, bus, v),
        Operation::Ldx => ldx(cpu, bus, v),
        Operation::Ldy => ldy(cpu, bus, v),
        Operation::Lsr => lsr(cpu, bus, v),
        Operation::Nop => nop(cpu, bus, v),
        Operation::Ora => ora(cpu, bus, v),
        Operation::Pha => pha(cpu, bus, v),
        Operation::Php => php(cpu, bus, v),
        Operation::Pla => pla(cpu, bus, v),
        Operation::Plp => plp(cpu, bus, v),
        Operation::Rla => rla(cpu, bus, v),
        Operation::Rol => rol(cpu, bus, v),
        Operation::Ror => ror(cpu, bus, v),
        Operation::Rra => rra(cpu, bus, v),
        Operation::Rti => rti(cpu, bus, v),
        Operation::Rts => rts(cpu, bus, v),
        Operation::Sax => sax(cpu, bus, v),
        Operation::Sbc => sbc(cpu, bus, v),
        Operation::Sec => sec(cpu, bus, v),
        Operation::Sed => sed(cpu, bus, v),
        Operation::Sei => sei(cpu, bus, v),
        Operation::Shx => shx(cpu, bus, v),
        Operation::Shy => shy(cpu, bus, v),
        Operation::Slo => slo(cpu, bus, v),
        Operation::Sre => sre(cpu, bus, v),
        Operation::Sta => sta(cpu, bus, v),
        Operation::Stx => stx(cpu, bus, v),
        Operation::Sty => sty(cpu, bus, v),
        Operation::Tas => tas(cpu, bus, v),
        Operation::Tax => tax(cpu, bus, v),
        Operation::Tay => tay(cpu, bus, v),
        Operation::Tsx => tsx(cpu, bus, v),
        Operation::Txa => txa(cpu, bus, v),
        Operation::Txs => txs(cpu, bus, v),
        Operation::Tya => tya(cpu, bus, v),
        Operation::Xaa => xaa(cpu, bus, v),
    }
}

/// Resolves the operand of an addressing mode.
pub fn find_address<B: Interface6502>(mode: AddressMode, cpu: &mut MOS6502, bus: &mut B) -> (r: AddressModeValue)
    requires
        old(cpu).remaining_cycles < 255,
    ensures
        resolves(mode, old(bus).accesses(), final(bus).accesses(), *old(cpu), *final(cpu), r),
        kind_of(r) == mode_kind(mode),
        final(cpu).remaining_cycles <= old(cpu).remaining_cycles + 1,
        final(cpu).total_cycles == old(cpu).total_cycles,
{
    reveal(resolves);
    match mode {
        AddressMode::Absolute => absolute(cpu, bus),
        AddressMode::AbsoluteX => absolute_x(cpu, bus),
        AddressMode::AbsoluteXConst => absolute_x_const(cpu, bus),
        AddressMode::AbsoluteY => absolute_y(cpu, bus),
        AddressMode::AbsoluteYConst => absolute_y_const(cpu, bus),
        AddressMode::Immediate => immediate(cpu, bus),
        AddressMode::Implied => implied(cpu, bus),
        AddressMode::Indirect => indirect(cpu, bus),
        AddressMode::IndirectX => indirect_x(cpu, bus),
        AddressMode::IndirectY => indirect_y(cpu, bus),
        AddressMode::IndirectYConst => indirect_y_const(cpu, bus),
        AddressMode::Relative => relative(cpu, bus),
        AddressMode::ZeroPage => zero_page(cpu, bus),
        AddressMode::ZeroPageX => zero_page_x(cpu, bus),
        AddressMode::ZeroPageY => zero_page_y(cpu, bus),
    }
}

/// One entry of the dispatch table.
#[derive(Debug, Clone, Copy)]
pub struct Instruction {
    /// The mnemonic, for tracing
    pub name: &'static str,
    pub operation: Operation,
    pub address_mode: AddressMode,
    /// The cycles the instruction takes, before any extra cycle of its addressing mode or branch
    pub cycles: u8,
}

/// The dispatch table as a function of the opcode byte: operation, addressing mode, base cycles.
#[verifier::opaque]
pub open spec fn table(opcode: u8) -> (Operation, AddressMode, u8) {
    match opcode {
        0x00 => (Operation::Brk, AddressMode::Implied, 7),
        0x01 => (Operation::Ora, AddressMode::IndirectX, 6),
        0x02 => (Operation::Kil, AddressMode::Implied, 0),
        0x03 => (Operation::Slo, AddressMode::IndirectX, 8),
        0x04 => (Operation::Nop, AddressMode::ZeroPage, 3),
        0x05 => (Operation::Ora, AddressMode::ZeroPage, 3),
        0x06 => (Operation::Asl, AddressMode::ZeroPage, 5),
        0x07 => (Operation::Slo, AddressMode::ZeroPage, 5),
        0x08 => (Operation::Php, AddressMode::Implied, 3),
        0x09 => (Operation::Ora, AddressMode::Immediate, 2),
        0x0a => (Operation::Asl, AddressMode::Implied, 2),
        0x0b => (Operation::Anc, AddressMode::Immediate, 2),
        0x0c => (Operation::Nop, AddressMode::Absolute, 4),
        0x0d => (Operation::Ora, AddressMode::Absolute, 4),
        0x0e => (Operation::Asl, AddressMode::Absolute, 6),
        0x0f => (Operation::Slo, AddressMode::Absolute, 6),
        0x10 => (Operation::Bpl, AddressMode::Relative, 2),
        0x11 => (Operation::Ora, AddressMode::IndirectY, 5),
        0x12 => (Operation::Kil, AddressMode::Implied, 0),
        0x13 => (Operation::Slo, AddressMode::IndirectYConst, 8),
        0x14 => (Operation::Nop, AddressMode::ZeroPageX, 4),
        0x15 => (Operation::Ora, AddressMode::ZeroPageX, 4),
        0x16 => (Operation::Asl, AddressMode::ZeroPageX, 6),
        0x17 => (Operation::Slo, AddressMode::ZeroPageX, 6),
        0x18 => (Operation::Clc, AddressMode::Implied, 2),
        0x19 => (Operation::Ora, AddressMode::AbsoluteY, 4),
        0x1a => (Operation::Nop, AddressMode::Implied, 2),
        0x1b => (Operation::Slo, AddressMode::AbsoluteYConst, 7),
        0x1c => (Operation::Nop, AddressMode::AbsoluteX, 4),
        0x1d => (Operation::Ora, AddressMode::AbsoluteX, 4),
        0x1e => (Operation::Asl, AddressMode::AbsoluteXConst, 7),
        0x1f => (Operation::Slo, AddressMode::AbsoluteXConst, 7),
        0x20 => (Operation::Jsr, AddressMode::Absolute, 6),
        0x21 => (Operation::And, AddressMode::IndirectX, 6),
        0x22 => (Operation::Kil, AddressMode::Implied, 0),
        0x23 => (Operation::Rla, AddressMode::IndirectX, 8),
        0x24 => (Operation::Bit, AddressMode::ZeroPage, 3),
        0x25 => (Operation::And, AddressMode::ZeroPage, 3),
        0x26 => (Operation::Rol, AddressMode::ZeroPage, 5),
        0x27 => (Operation::Rla, AddressMode::ZeroPage, 5),
        0x28 => (Operation::Plp, AddressMode::Implied, 4),
        0x29 => (Operation::And, AddressMode::Immediate, 2),
        0x2a => (Operation::Rol, AddressMode::Implied, 2),
        0x2b => (Operation::Anc, AddressMode::Immediate, 2),
        0x2c => (Operation::Bit, AddressMode::Absolute, 4),
        0x2d => (Operation::And, AddressMode::Absolute, 4),
        0x2e => (Operation::Rol, AddressMode::Absolute, 6),
        0x2f => (Operation::Rla, AddressMode::Absolute, 6),
        0x30 => (Operation::Bmi, AddressMode::Relative, 2),
        0x31 => (Operation::And, AddressMode::IndirectY, 5),
        0x32 => (Operation::Kil, AddressMode::Implied, 0),
        0x33 => (Operation::Rla, AddressMode::IndirectYConst, 8),
        0x34 => (Operation::Nop, AddressMode::ZeroPageX, 4),
        0x35 => (Operation::And, AddressMode::ZeroPageX, 4),
        0x36 => (Operation::Rol, AddressMode::ZeroPageX, 6),
        0x37 => (Operation::Rla, AddressMode::ZeroPageX, 6),
        0x38 => (Operation::Sec, AddressMode::Implied, 2),
        0x39 => (Operation::And, AddressMode::AbsoluteY, 4),
        0x3a => (Operation::Nop, AddressMode::Implied, 2),
        0x3b => (Operation::Rla, AddressMode::AbsoluteYConst, 7),
        0x3c => (Operation::Nop, AddressMode::AbsoluteX, 4),
        0x3d => (Operation::And, AddressMode::AbsoluteX, 4),
        0x3e => (Operation::Rol, AddressMode::AbsoluteXConst, 7),
        0x3f => (Operation::Rla, AddressMode::AbsoluteXConst, 7),
        0x40 => (Operation::Rti, AddressMode::Implied, 6),
        0x41 => (Operation::Eor, AddressMode::IndirectX, 6),
        0x42 => (Operation::Kil, AddressMode::Implied, 0),
        0x43 => (Operation::Sre, AddressMode::IndirectX, 8),
        0x44 => (Operation::Nop, AddressMode::ZeroPage, 3),
        0x45 => (Operation::Eor, AddressMode::ZeroPage, 3),
        0x46 => (Operation::Lsr, AddressMode::ZeroPage, 5),
        0x47 => (Operation::Sre, AddressMode::ZeroPage, 5),
        0x48 => (Operation::Pha, AddressMode::Implied, 3),
        0x49 => (Operation::Eor, AddressMode::Immediate, 2),
        0x4a => (Operation::Lsr, AddressMode::Implied, 2),
        0x4b => (Operation::Alr, AddressMode::Immediate, 2),
        0x4c => (Operation::Jmp, AddressMode::Absolute, 3),
        0x4d => (Operation::Eor, AddressMode::Absolute, 4),
        0x4e => (Operation::Lsr, AddressMode::Absolute, 6),
        0x4f => (Operation::Sre, AddressMode::Absolute, 6),
        0x50 => (Operation::Bvc, AddressMode::Relative, 2),
        0x51 => (Operation::Eor, AddressMode::IndirectY, 5),
        0x52 => (Operation::Kil, AddressMode::Implied, 0),
        0x53 => (Operation::Sre, AddressMode::IndirectYConst, 8),
        0x54 => (Operation::Nop, AddressMode::ZeroPageX, 4),
        0x55 => (Operation::Eor, AddressMode::ZeroPageX, 4),
        0x56 => (Operation::Lsr, AddressMode::ZeroPageX, 6),
        0x57 => (Operation::Sre, AddressMode::ZeroPageX, 6),
        0x58 => (Operation::Cli, AddressMode::Implied, 2),
        0x59 => (Operation::Eor, AddressMode::AbsoluteY, 4),
        0x5a => (Operation::Nop, AddressMode::Implied, 2),
        0x5b => (Operation::Sre, AddressMode::AbsoluteYConst, 7),
        0x5c => (Operation::Nop, AddressMode::AbsoluteX, 4),
        0x5d => (Operation::Eor, AddressMode::AbsoluteX, 4),
        0x5e => (Operation::Lsr, AddressMode::AbsoluteXConst, 7),
        0x5f => (Operation::Sre, AddressMode::AbsoluteXConst, 7),
        0x60 => (Operation::Rts, AddressMode::Implied, 6),
        0x61 => (Operation::Adc, AddressMode::IndirectX, 6),
        0x62 => (Operation::Kil, AddressMode::Implied, 0),
        0x63 => (Operation::Rra, AddressMode::IndirectX, 8),
        0x64 => (Operation::Nop, AddressMode::ZeroPage, 3),
        0x65 => (Operation::Adc, AddressMode::ZeroPage, 3),
        0x66 => (Operation::Ror, AddressMode::ZeroPage, 5),
        0x67 => (Operation::Rra, AddressMode::ZeroPage, 5),
        0x68 => (Operation::Pla, AddressMode::Implied, 4),
        0x69 => (Operation::Adc, AddressMode::Immediate, 2),
        0x6a => (Operation::Ror, AddressMode::Implied, 2),
        0x6b => (Operation::Arr, AddressMode::Immediate, 2),
        0x6c => (Operation::Jmp, AddressMode::Indirect, 5),
        0x6d => (Operation::Adc, AddressMode::Absolute, 4),
        0x6e => (Operation::Ror, AddressMode::Absolute, 6),
        0x6f => (Operation::Rra, AddressMode::Absolute, 6),
        0x70 => (Operation::Bvs, AddressMode::Relative, 2),
        0x71 => (Operation::Adc, AddressMode::IndirectY, 5),
        0x72 => (Operation::Kil, AddressMode::Implied, 0),
        0x73 => (Operation::Rra, AddressMode::IndirectYConst, 8),
        0x74 => (Operation::Nop, AddressMode::ZeroPageX, 4),
        0x75 => (Operation::Adc, AddressMode::ZeroPageX, 4),
        0x76 => (Operation::Ror, AddressMode::ZeroPageX, 6),
        0x77 => (Operation::Rra, AddressMode::ZeroPageX, 6),
        0x78 => (Operation::Sei, AddressMode::Implied, 2),
        0x79 => (Operation::Adc, AddressMode::AbsoluteY, 4),
        0x7a => (Operation::Nop, AddressMode::Implied, 2),
        0x7b => (Operation::Rra, AddressMode::AbsoluteYConst, 7),
        0x7c => (Operation::Nop, AddressMode::AbsoluteX, 4),
        0x7d => (Operation::Adc, AddressMode::AbsoluteX, 4),
        0x7e => (Operation::Ror, AddressMode::AbsoluteXConst, 7),
        0x7f => (Operation::Rra, AddressMode::AbsoluteXConst, 7),
        0x80 => (Operation::Nop, AddressMode::Immediate, 2),
        0x81 => (Operation::Sta, AddressMode::IndirectX, 6),
        0x82 => (Operation::Nop, AddressMode::Immediate, 2),
        0x83 => (Operation::Sax, AddressMode::IndirectX, 6),
        0x84 => (Operation::Sty, AddressMode::ZeroPage, 3),
        0x85 => (Operation::Sta, AddressMode::ZeroPage, 3),
        0x86 => (Operation::Stx, AddressMode::ZeroPage, 3),
        0x87 => (Operation::Sax, AddressMode::ZeroPage, 3),
        0x88 => (Operation::Dey, AddressMode::Implied, 2),
        0x89 => (Operation::Nop, AddressMode::Immediate, 2),
        0x8a => (Operation::Txa, AddressMode::Implied, 2),
        0x8b => (Operation::Xaa, AddressMode::Immediate, 2),
        0x8c => (Operation::Sty, AddressMode::Absolute, 4),
        0x8d => (Operation::Sta, AddressMode::Absolute, 4),
        0x8e => (Operation::Stx, AddressMode::Absolute, 4),
        0x8f => (Operation::Sax, AddressMode::Absolute, 4),
        0x90 => (Operation::Bcc, AddressMode::Relative, 2),
        0x91 => (Operation::Sta, AddressMode::IndirectY, 6),
        0x92 => (Operation::Kil, AddressMode::Implied, 0),
        0x93 => (Operation::Ahx, AddressMode::IndirectY, 6),
        0x94 => (Operation::Sty, AddressMode::ZeroPageX, 4),
        0x95 => (Operation::Sta, AddressMode::ZeroPageX, 4),
        0x96 => (Operation::Stx, AddressMode::ZeroPageY, 4),
        0x97 => (Operation::Sax, AddressMode::ZeroPageY, 4),
        0x98 => (Operation::Tya, AddressMode::Implied, 2),
        0x99 => (Operation::Sta, AddressMode::AbsoluteYConst, 5),
        0x9a => (Operation::Txs, AddressMode::Implied, 2),
        0x9b => (Operation::Tas, AddressMode::AbsoluteY, 5),
        0x9c => (Operation::Shy, AddressMode::AbsoluteX, 5),
        0x9d => (Operation::Sta, AddressMode::AbsoluteXConst, 5),
        0x9e => (Operation::Shx, AddressMode::AbsoluteY, 5),
        0x9f => (Operation::Ahx, AddressMode::AbsoluteY, 5),
        0xa0 => (Operation::Ldy, AddressMode::Immediate, 2),
        0xa1 => (Operation::Lda, AddressMode::IndirectX, 6),
        0xa2 => (Operation::Ldx, AddressMode::Immediate, 2),
        0xa3 => (Operation::Lax, AddressMode::IndirectX, 6),
        0xa4 => (Operation::Ldy, AddressMode::ZeroPage, 3),
        0xa5 => (Operation::Lda, AddressMode::ZeroPage, 3),
        0xa6 => (Operation::Ldx, AddressMode::ZeroPage, 3),
        0xa7 => (Operation::Lax, AddressMode::ZeroPage, 3),
        0xa8 => (Operation::Tay, AddressMode::Implied, 2),
        0xa9 => (Operation::Lda, AddressMode::Immediate, 2),
        0xaa => (Operation::Tax, AddressMode::Implied, 2),
        0xab => (Operation::Lax, AddressMode::Immediate, 2),
        0xac => (Operation::Ldy, AddressMode::Absolute, 4),
        0xad => (Operation::Lda, AddressMode::Absolute, 4),
        0xae => (Operation::Ldx, AddressMode::Absolute, 4),
        0xaf => (Operation::Lax, AddressMode::Absolute, 4),
        0xb0 => (Operation::Bcs, AddressMode::Relative, 2),
        0xb1 => (Operation::Lda, AddressMode::IndirectY, 5),
        0xb2 => (Operation::Kil, AddressMode::Implied, 0),
        0xb3 => (Operation::Lax, AddressMode::IndirectY, 5),
        0xb4 => (Operation::Ldy, AddressMode::ZeroPageX, 4),
        0xb5 => (Operation::Lda, AddressMode::ZeroPageX, 4),
        0xb6 => (Operation::Ldx, AddressMode::ZeroPageY, 4),
        0xb7 => (Operation::Lax, AddressMode::ZeroPageY, 4),
        0xb8 => (Operation::Clv, AddressMode::Implied, 2),
        0xb9 => (Operation::Lda, AddressMode::AbsoluteY, 4),
        0xba => (Operation::Tsx, AddressMode::Implied, 2),
        0xbb => (Operation::Las, AddressMode::AbsoluteY, 4),
        0xbc => (Operation::Ldy, AddressMode::AbsoluteX, 4),
        0xbd => (Operation::Lda, AddressMode::AbsoluteX, 4),
        0xbe => (Operation::Ldx, AddressMode::AbsoluteY, 4),
        0xbf => (Operation::Lax, AddressMode::AbsoluteY, 4),
        0xc0 => (Operation::Cpy, AddressMode::Immediate, 2),
        0xc1 => (Operation::Cmp, AddressMode::IndirectX, 6),
        0xc2 => (Operation::Nop, AddressMode::Immediate, 2),
        0xc3 => (Operation::Dcp, AddressMode::IndirectX, 8),
        0xc4 => (Operation::Cpy, AddressMode::ZeroPage, 3),
        0xc5 => (Operation::Cmp, AddressMode::ZeroPage, 3),
        0xc6 => (Operation::Dec, AddressMode::ZeroPage, 5),
        0xc7 => (Operation::Dcp, AddressMode::ZeroPage, 5),
        0xc8 => (Operation::Iny, AddressMode::Implied, 2),
        0xc9 => (Operation::Cmp, AddressMode::Immediate, 2),
        0xca => (Operation::Dex, AddressMode::Implied, 2),
        0xcb => (Operation::Axs, AddressMode::Immediate, 2),
        0xcc => (Operation::Cpy, AddressMode::Absolute, 4),
        0xcd => (Operation::Cmp, AddressMode::Absolute, 4),
        0xce => (Operation::Dec, AddressMode::Absolute, 6),
        0xcf => (Operation::Dcp, AddressMode::Absolute, 6),
        0xd0 => (Operation::Bne, AddressMode::Relative, 2),
        0xd1 => (Operation::Cmp, AddressMode::IndirectY, 5),
        0xd2 => (Operation::Kil, AddressMode::Implied, 0),
        0xd3 => (Operation::Dcp, AddressMode::IndirectYConst, 8),
        0xd4 => (Operation::Nop, AddressMode::ZeroPageX, 4),
        0xd5 => (Operation::Cmp, AddressMode::ZeroPageX, 4),
        0xd6 => (Operation::Dec, AddressMode::ZeroPageX, 6),
        0xd7 => (Operation::Dcp, AddressMode::ZeroPageX, 6),
        0xd8 => (Operation::Cld, AddressMode::Implied, 2),
        0xd9 => (Operation::Cmp, AddressMode::AbsoluteY, 4),
        0xda => (Operation::Nop, AddressMode::Implied, 2),
        0xdb => (Operation::Dcp, AddressMode::AbsoluteYConst, 7),
        0xdc => (Operation::Nop, AddressMode::AbsoluteX, 4),
        0xdd => (Operation::Cmp, AddressMode::AbsoluteX, 4),
        0xde => (Operation::Dec, AddressMode::AbsoluteXConst, 7),
        0xdf => (Operation::Dcp, AddressMode::AbsoluteXConst, 7),
        0xe0 => (Operation::Cpx, AddressMode::Immediate, 2),
        0xe1 => (Operation::Sbc, AddressMode::IndirectX, 6),
        0xe2 => (Operation::Nop, AddressMode::Immediate, 2),
        0xe3 => (Operation::Isc, AddressMode::IndirectX, 8),
        0xe4 => (Operation::Cpx, AddressMode::ZeroPage, 3),
        0xe5 => (Operation::Sbc, AddressMode::ZeroPage, 3),
        0xe6 => (Operation::Inc, AddressMode::ZeroPage, 5),
        0xe7 => (Operation::Isc, AddressMode::ZeroPage, 5),
        0xe8 => (Operation::Inx, AddressMode::Implied, 2),
        0xe9 => (Operation::Sbc, AddressMode::Immediate, 2),
        0xea => (Operation::Nop, AddressMode::Implied, 2),
        0xeb => (Operation::Sbc, AddressMode::Immediate, 2),
        0xec => (Operation::Cpx, AddressMode::Absolute, 4),
        0xed => (Operation::Sbc, AddressMode::Absolute, 4),
        0xee => (Operation::Inc, AddressMode::Absolute, 6),
        0xef => (Operation::Isc, AddressMode::Absolute, 6),
        0xf0 => (Operation::Beq, AddressMode::Relative, 2),
        0xf1 => (Operation::Sbc, AddressMode::IndirectY, 5),
        0xf2 => (Operation::Kil, AddressMode::Implied, 0),
        0xf3 => (Operation::Isc, AddressMode::IndirectYConst, 8),
        0xf4 => (Operation::Nop, AddressMode::ZeroPageX, 4),
        0xf5 => (Operation::Sbc, AddressMode::ZeroPageX, 4),
        0xf6 => (Operation::Inc, AddressMode::ZeroPageX, 6),
        0xf7 => (Operation::Isc, AddressMode::ZeroPageX, 6),
        0xf8 => (Operation::Sed, AddressMode::Implied, 2),
        0xf9 => (Operation::Sbc, AddressMode::AbsoluteY, 4),
        0xfa => (Operation::Nop, AddressMode::Implied, 2),
        0xfb => (Operation::Isc, AddressMode::AbsoluteYConst, 7),
        0xfc => (Operation::Nop, AddressMode::AbsoluteX, 4),
        0xfd => (Operation::Sbc, AddressMode::AbsoluteX, 4),
        0xfe => (Operation::Inc, AddressMode::AbsoluteXConst, 7),
        _ => (Operation::Isc, AddressMode::AbsoluteXConst, 7),
    }
}

/// Looks up the instruction that an opcode byte encodes.
pub fn decode(opcode: u8) -> (r: Instruction)
    ensures
        (r.operation, r.address_mode, r.cycles) == table(opcode),
        accepts(r.operation, mode_kind(r.address_mode)),
        r.cycles <= 8,
{
    reveal(table);
    match opcode {
        0x00 => Instruction { name: "brk", operation: Operation::Brk, address_mode: AddressMode::Implied, cycles: 7 },
        0x01 => Instruction { name: "ora", operation: Operation::Ora, address_mode: AddressMode::IndirectX, cycles: 6 },
        0x02 => Instruction { name: "kil", operation: Operation::Kil, address_mode: AddressMode::Implied, cycles: 0 },
        0x03 => Instruction { name: "slo", operation: Operation::Slo, address_mode: AddressMode::IndirectX, cycles: 8 },
        0x04 => Instruction { name: "nop", operation: Operation::Nop, address_mode: AddressMode::ZeroPage, cycles: 3 },
        0x05 => Instruction { name: "ora", operation: Operation::Ora, address_mode: AddressMode::ZeroPage, cycles: 3 },
        0x06 => Instruction { name: "asl", operation: Operation::Asl, address_mode: AddressMode::ZeroPage, cycles: 5 },
        0x07 => Instruction { name: "slo", operation: Operation::Slo, address_mode: AddressMode::ZeroPage, cycles: 5 },
        0x08 => Instruction { name: "php", operation: Operation::Php, address_mode: AddressMode::Implied, cycles: 3 },
        0x09 => Instruction { name: "ora", operation: Operation::Ora, address_mode: AddressMode::Immediate, cycles: 2 },
        0x0a => Instruction { name: "asl", operation: Operation::Asl, address_mode: AddressMode::Implied, cycles: 2 },
        0x0b => Instruction { name: "anc", operation: Operation::Anc, address_mode: AddressMode::Immediate, cycles: 2 },
        0x0c => Instruction { name: "nop", operation: Operation::Nop, address_mode: AddressMode::Absolute, cycles: 4 },
        0x0d => Instruction { name: "ora", operation: Operation::Ora, address_mode: AddressMode::Absolute, cycles: 4 },
        0x0e => Instruction { name: "asl", operation: Operation::Asl, address_mode: AddressMode::Absolute, cycles: 6 },
        0x0f => Instruction { name: "slo", operation: Operation::Slo, address_mode: AddressMode::Absolute, cycles: 6 },
        0x10 => Instruction { name: "bpl", operation: Operation::Bpl, address_mode: AddressMode::Relative, cycles: 2 },
        0x11 => Instruction { name: "ora", operation: Operation::Ora, address_mode: AddressMode::IndirectY, cycles: 5 },
        0x12 => Instruction { name: "kil", operation: Operation::Kil, address_mode: AddressMode::Implied, cycles: 0 },
        0x13 => Instruction { name: "slo", operation: Operation::Slo, address_mode: AddressMode::IndirectYConst, cycles: 8 },
        0x14 => Instruction { name: "nop", operation: Operation::Nop, address_mode: AddressMode::ZeroPageX, cycles: 4 },
        0x15 => Instruction { name: "ora", operation: Operation::Ora, address_mode: AddressMode::ZeroPageX, cycles: 4 },
        0x16 => Instruction { name: "asl", operation: Operation::Asl, address_mode: AddressMode::ZeroPageX, cycles: 6 },
        0x17 => Instruction { name: "slo", operation: Operation::Slo, address_mode: AddressMode::ZeroPageX, cycles: 6 },
        0x18 => Instruction { name: "clc", operation: Operation::Clc, address_mode: AddressMode::Implied, cycles: 2 },
        0x19 => Instruction { name: "ora", operation: Operation::Ora, address_mode: AddressMode::AbsoluteY, cycles: 4 },
        0x1a => Instruction { name: "nop", operation: Operation::Nop, address_mode: AddressMode::Implied, cycles: 2 },
        0x1b => Instruction { name: "slo", operation: Operation::Slo, address_mode: AddressMode::AbsoluteYConst, cycles: 7 },
        0x1c => Instruction { name: "nop", operation: Operation::Nop, address_mode: AddressMode::AbsoluteX, cycles: 4 },
        0x1d => Instruction { name: "ora", operation: Operation::Ora, address_mode: AddressMode::AbsoluteX, cycles: 4 },
        0x1e => Instruction { name: "asl", operation: Operation::Asl, address_mode: AddressMode::AbsoluteXConst, cycles: 7 },
        0x1f => Instruction { name: "slo", operation: Operation::Slo, address_mode: AddressMode::AbsoluteXConst, cycles: 7 },
        0x20 => Instruction { name: "jsr", operation: Operation::Jsr, address_mode: AddressMode::Absolute, cycles: 6 },
        0x21 => Instruction { name: "and", operation: Operation::And, address_mode: AddressMode::IndirectX, cycles: 6 },
        0x22 => Instruction { name: "kil", operation: Operation::Kil, address_mode: AddressMode::Implied, cycles: 0 },
        0x23 => Instruction { name: "rla", operation: Operation::Rla, address_mode: AddressMode::IndirectX, cycles: 8 },
        0x24 => Instruction { name: "bit", operation: Operation::Bit, address_mode: AddressMode::ZeroPage, cycles: 3 },
        0x25 => Instruction { name: "and", operation: Operation::And, address_mode: AddressMode::ZeroPage, cycles: 3 },
        0x26 => Instruction { name: "rol", operation: Operation::Rol, address_mode: AddressMode::ZeroPage, cycles: 5 },
        0x27 => Instruction { name: "rla", operation: Operation::Rla, address_mode: AddressMode::ZeroPage, cycles: 5 },
        0x28 => Instruction { name: "plp", operation: Operation::Plp, address_mode: AddressMode::Implied, cycles: 4 },
        0x29 => Instruction { name: "and", operation: Operation::And, address_mode: AddressMode::Immediate, cycles: 2 },
        0x2a => Instruction { name: "rol", operation: Operation::Rol, address_mode: AddressMode::Implied, cycles: 2 },
        0x2b => Instruction { name: "anc", operation: Operation::Anc, address_mode: AddressMode::Immediate, cycles: 2 },
        0x2c => Instruction { name: "bit", operation: Operation::Bit, address_mode: AddressMode::Absolute, cycles: 4 },
        0x2d => Instruction { name: "and", operation: Operation::And, address_mode: AddressMode::Absolute, cycles: 4 },
        0x2e => Instruction { name: "rol", operation: Operation::Rol, address_mode: AddressMode::Absolute, cycles: 6 },
        0x2f => Instruction { name: "rla", operation: Operation::Rla, address_mode: AddressMode::Absolute, cycles: 6 },
        0x30 => Instruction { name: "bmi", operation: Operation::Bmi, address_mode: AddressMode::Relative, cycles: 2 },
        0x31 => Instruction { name: "and", operation: Operation::And, address_mode: AddressMode::IndirectY, cycles: 5 },
        0x32 => Instruction { name: "kil", operation: Operation::Kil, address_mode: AddressMode::Implied, cycles: 0 },
        0x33 => Instruction { name: "rla", operation: Operation::Rla, address_mode: AddressMode::IndirectYConst, cycles: 8 },
        0x34 => Instruction { name: "nop", operation: Operation::Nop, address_mode: AddressMode::ZeroPageX, cycles: 4 },
        0x35 => Instruction { name: "and", operation: Operation::And, address_mode: AddressMode::ZeroPageX, cycles: 4 },
        0x36 => Instruction { name: "rol", operation: Operation::Rol, address_mode: AddressMode::ZeroPageX, cycles: 6 },
        0x37 => Instruction { name: "rla", operation: Operation::Rla, address_mode: AddressMode::ZeroPageX, cycles: 6 },
        0x38 => Instruction { name: "sec", operation: Operation::Sec, address_mode: AddressMode::Implied, cycles: 2 },
        0x39 => Instruction { name: "and", operation: Operation::And, address_mode: AddressMode::AbsoluteY, cycles: 4 },
        0x3a => Instruction { name: "nop", operation: Operation::Nop, address_mode: AddressMode::Implied, cycles: 2 },
        0x3b => Instruction { name: "rla", operation: Operation::Rla, address_mode: AddressMode::AbsoluteYConst, cycles: 7 },
        0x3c => Instruction { name: "nop", operation: Operation::Nop, address_mode: AddressMode::AbsoluteX, cycles: 4 },
        0x3d => Instruction { name: "and", operation: Operation::And, address_mode: AddressMode::AbsoluteX, cycles: 4 },
        0x3e => Instruction { name: "rol", operation: Operation::Rol, address_mode: AddressMode::AbsoluteXConst, cycles: 7 },
        0x3f => Instruction { name: "rla", operation: Operation::Rla, address_mode: AddressMode::AbsoluteXConst, cycles: 7 },
        0x40 => Instruction { name: "rti", operation: Operation::Rti, address_mode: AddressMode::Implied, cycles: 6 },
        0x41 => Instruction { name: "eor", operation: Operation::Eor, address_mode: AddressMode::IndirectX, cycles: 6 },
        0x42 => Instruction { name: "kil", operation: Operation::Kil, address_mode: AddressMode::Implied, cycles: 0 },
        0x43 => Instruction { name: "sre", operation: Operation::Sre, address_mode: AddressMode::IndirectX, cycles: 8 },
        0x44 => Instruction { name: "nop", operation: Operation::Nop, address_mode: AddressMode::ZeroPage, cycles: 3 },
        0x45 => Instruction { name: "eor", operation: Operation::Eor, address_mode: AddressMode::ZeroPage, cycles: 3 },
        0x46 => Instruction { name: "lsr", operation: Operation::Lsr, address_mode: AddressMode::ZeroPage, cycles: 5 },
        0x47 => Instruction { name: "sre", operation: Operation::Sre, address_mode: AddressMode::ZeroPage, cycles: 5 },
        0x48 => Instruction { name: "pha", operation: Operation::Pha, address_mode: AddressMode::Implied, cycles: 3 },
        0x49 => Instruction { name: "eor", operation: Operation::Eor, address_mode: AddressMode::Immediate, cycles: 2 },
        0x4a => Instruction { name: "lsr", operation: Operation::Lsr, address_mode: AddressMode::Implied, cycles: 2 },
        0x4b => Instruction { name: "alr", operation: Operation::Alr, address_mode: AddressMode::Immediate, cycles: 2 },
        0x4c => Instruction { name: "jmp", operation: Operation::Jmp, address_mode: AddressMode::Absolute, cycles: 3 },
        0x4d => Instruction { name: "eor", operation: Operation::Eor, address_mode: AddressMode::Absolute, cycles: 4 },
        0x4e => Instruction { name: "lsr", operation: Operation::Lsr, address_mode: AddressMode::Absolute, cycles: 6 },
        0x4f => Instruction { name: "sre", operation: Operation::Sre, address_mode: AddressMode::Absolute, cycles: 6 },
        0x50 => Instruction { name: "bvc", operation: Operation::Bvc, address_mode: AddressMode::Relative, cycles: 2 },
        0x51 => Instruction { name: "eor", operation: Operation::Eor, address_mode: AddressMode::IndirectY, cycles: 5 },
        0x52 => Instruction { name: "kil", operation: Operation::Kil, address_mode: AddressMode::Implied, cycles: 0 },
        0x53 => Instruction { name: "sre", operation: Operation::Sre, address_mode: AddressMode::IndirectYConst, cycles: 8 },
        0x54 => Instruction { name: "nop", operation: Operation::Nop, address_mode: AddressMode::ZeroPageX, cycles: 4 },
        0x55 => Instruction { name: "eor", operation: Operation::Eor, address_mode: AddressMode::ZeroPageX, cycles: 4 },
        0x56 => Instruction { name: "lsr", operation: Operation::Lsr, address_mode: AddressMode::ZeroPageX, cycles: 6 },
        0x57 => Instruction { name: "sre", operation: Operation::Sre, address_mode: AddressMode::ZeroPageX, cycles: 6 },
        0x58 => Instruction { name: "cli", operation: Operation::Cli, address_mode: AddressMode::Implied, cycles: 2 },
        0x59 => Instruction { name: "eor", operation: Operation::Eor, address_mode: AddressMode::AbsoluteY, cycles: 4 },
        0x5a => Instruction { name: "nop", operation: Operation::Nop, address_mode: AddressMode::Implied, cycles: 2 },
        0x5b => Instruction { name: "sre", operation: Operation::Sre, address_mode: AddressMode::AbsoluteYConst, cycles: 7 },
        0x5c => Instruction { name: "nop", operation: Operation::Nop, address_mode: AddressMode::AbsoluteX, cycles: 4 },
        0x5d => Instruction { name: "eor", operation: Operation::Eor, address_mode: AddressMode::AbsoluteX, cycles: 4 },
        0x5e => Instruction { name: "lsr", operation: Operation::Lsr, address_mode: AddressMode::AbsoluteXConst, cycles: 7 },
        0x5f => Instruction { name: "sre", operation: Operation::Sre, address_mode: AddressMode::AbsoluteXConst, cycles: 7 },
        0x60 => Instruction { name: "rts", operation: Operation::Rts, address_mode: AddressMode::Implied, cycles: 6 },
        0x61 => Instruction { name: "adc", operation: Operation::Adc, address_mode: AddressMode::IndirectX, cycles: 6 },
        0x62 => Instruction { name: "kil", operation: Operation::Kil, address_mode: AddressMode::Implied, cycles: 0 },
        0x63 => Instruction { name: "rra", operation: Operation::Rra, address_mode: AddressMode::IndirectX, cycles: 8 },
        0x64 => Instruction { name: "nop", operation: Operation::Nop, address_mode: AddressMode::ZeroPage, cycles: 3 },
        0x65 => Instruction { name: "adc", operation: Operation::Adc, address_mode: AddressMode::ZeroPage, cycles: 3 },
        0x66 => Instruction { name: "ror", operation: Operation::Ror, address_mode: AddressMode::ZeroPage, cycles: 5 },
        0x67 => Instruction { name: "rra", operation: Operation::Rra, address_mode: AddressMode::ZeroPage, cycles: 5 },
        0x68 => Instruction { name: "pla", operation: Operation::Pla, address_mode: AddressMode::Implied, cycles: 4 },
        0x69 => Instruction { name: "adc", operation: Operation::Adc, address_mode: AddressMode::Immediate, cycles: 2 },
        0x6a => Instruction { name: "ror", operation: Operation::Ror, address_mode: AddressMode::Implied, cycles: 2 },
        0x6b => Instruction { name: "arr", operation: Operation::Arr, address_mode: AddressMode::Immediate, cycles: 2 },
        0x6c => Instruction { name: "jmp", operation: Operation::Jmp, address_mode: AddressMode::Indirect, cycles: 5 },
        0x6d => Instruction { name: "adc", operation: Operation::Adc, address_mode: AddressMode::Absolute, cycles: 4 },
        0x6e => Instruction { name: "ror", operation: Operation::Ror, address_mode: AddressMode::Absolute, cycles: 6 },
        0x6f => Instruction { name: "rra", operation: Operation::Rra, address_mode: AddressMode::Absolute, cycles: 6 },
        0x70 => Instruction { name: "bvs", operation: Operation::Bvs, address_mode: AddressMode::Relative, cycles: 2 },
        0x71 => Instruction { name: "adc", operation: Operation::Adc, address_mode: AddressMode::IndirectY, cycles: 5 },
        0x72 => Instruction { name: "kil", operation: Operation::Kil, address_mode: AddressMode::Implied, cycles: 0 },
        0x73 => Instruction { name: "rra", operation: Operation::Rra, address_mode: AddressMode::IndirectYConst, cycles: 8 },
        0x74 => Instruction { name: "nop", operation: Operation::Nop, address_mode: AddressMode::ZeroPageX, cycles: 4 },
        0x75 => Instruction { name: "adc", operation: Operation::Adc, address_mode: AddressMode::ZeroPageX, cycles: 4 },
        0x76 => Instruction { name: "ror", operation: Operation::Ror, address_mode: AddressMode::ZeroPageX, cycles: 6 },
        0x77 => Instruction { name: "rra", operation: Operation::Rra, address_mode: AddressMode::ZeroPageX, cycles: 6 },
        0x78 => Instruction { name: "sei", operation: Operation::Sei, address_mode: AddressMode::Implied, cycles: 2 },
        0x79 => Instruction { name: "adc", operation: Operation::Adc, address_mode: AddressMode::AbsoluteY, cycles: 4 },
        0x7a => Instruction { name: "nop", operation: Operation::Nop, address_mode: AddressMode::Implied, cycles: 2 },
        0x7b => Instruction { name: "rra", operation: Operation::Rra, address_mode: AddressMode::AbsoluteYConst, cycles: 7 },
        0x7c => Instruction { name: "nop", operation: Operation::Nop, address_mode: AddressMode::AbsoluteX, cycles: 4 },
        0x7d => Instruction { name: "adc", operation: Operation::Adc, address_mode: AddressMode::AbsoluteX, cycles: 4 },
        0x7e => Instruction { name: "ror", operation: Operation::Ror, address_mode: AddressMode::AbsoluteXConst, cycles: 7 },
        0x7f => Instruction { name: "rra", operation: Operation::Rra, address_mode: AddressMode::AbsoluteXConst, cycles: 7 },
        0x80 => Instruction { name: "nop", operation: Operation::Nop, address_mode: AddressMode::Immediate, cycles: 2 },
        0x81 => Instruction { name: "sta", operation: Operation::Sta, address_mode: AddressMode::IndirectX, cycles: 6 },
        0x82 => Instruction { name: "nop", operation: Operation::Nop, address_mode: AddressMode::Immediate, cycles: 2 },
        0x83 => Instruction { name: "sax", operation: Operation::Sax, address_mode: AddressMode::IndirectX, cycles: 6 },
        0x84 => Instruction { name: "sty", operation: Operation::Sty, address_mode: AddressMode::ZeroPage, cycles: 3 },
        0x85 => Instruction { name: "sta", operation: Operation::Sta, address_mode: AddressMode::ZeroPage, cycles: 3 },
        0x86 => Instruction { name: "stx", operation: Operation::Stx, address_mode: AddressMode::ZeroPage, cycles: 3 },
        0x87 => Instruction { name: "sax", operation: Operation::Sax, address_mode: AddressMode::ZeroPage, cycles: 3 },
        0x88 => Instruction { name: "dey", operation: Operation::Dey, address_mode: AddressMode::Implied, cycles: 2 },
        0x89 => Instruction { name: "nop", operation: Operation::Nop, address_mode: AddressMode::Immediate, cycles: 2 },
        0x8a => Instruction { name: "txa", operation: Operation::Txa, address_mode: AddressMode::Implied, cycles: 2 },
        0x8b => Instruction { name: "xaa", operation: Operation::Xaa, address_mode: AddressMode::Immediate, cycles: 2 },
        0x8c => Instruction { name: "sty", operation: Operation::Sty, address_mode: AddressMode::Absolute, cycles: 4 },
        0x8d => Instruction { name: "sta", operation: Operation::Sta, address_mode: AddressMode::Absolute, cycles: 4 },
        0x8e => Instruction { name: "stx", operation: Operation::Stx, address_mode: AddressMode::Absolute, cycles: 4 },
        0x8f => Instruction { name: "sax", operation: Operation::Sax, address_mode: AddressMode::Absolute, cycles: 4 },
        0x90 => Instruction { name: "bcc", operation: Operation::Bcc, address_mode: AddressMode::Relative, cycles: 2 },
        0x91 => Instruction { name: "sta", operation: Operation::Sta, address_mode: AddressMode::IndirectY, cycles: 6 },
        0x92 => Instruction { name: "kil", operation: Operation::Kil, address_mode: AddressMode::Implied, cycles: 0 },
        0x93 => Instruction { name: "ahx", operation: Operation::Ahx, address_mode: AddressMode::IndirectY, cycles: 6 },
        0x94 => Instruction { name: "sty", operation: Operation::Sty, address_mode: AddressMode::ZeroPageX, cycles: 4 },
        0x95 => Instruction { name: "sta", operation: Operation::Sta, address_mode: AddressMode::ZeroPageX, cycles: 4 },
        0x96 => Instruction { name: "stx", operation: Operation::Stx, address_mode: AddressMode::ZeroPageY, cycles: 4 },
        0x97 => Instruction { name: "sax", operation: Operation::Sax, address_mode: AddressMode::ZeroPageY, cycles: 4 },
        0x98 => Instruction { name: "tya", operation: Operation::Tya, address_mode: AddressMode::Implied, cycles: 2 },
        0x99 => Instruction { name: "sta", operation: Operation::Sta, address_mode: AddressMode::AbsoluteYConst, cycles: 5 },
        0x9a => Instruction { name: "txs", operation: Operation::Txs, address_mode: AddressMode::Implied, cycles: 2 },
        0x9b => Instruction { name: "tas", operation: Operation::Tas, address_mode: AddressMode::AbsoluteY, cycles: 5 },
        0x9c => Instruction { name: "shy", operation: Operation::Shy, address_mode: AddressMode::AbsoluteX, cycles: 5 },
        0x9d => Instruction { name: "sta", operation: Operation::Sta, address_mode: AddressMode::AbsoluteXConst, cycles: 5 },
        0x9e => Instruction { name: "shx", operation: Operation::Shx, address_mode: AddressMode::AbsoluteY, cycles: 5 },
        0x9f => Instruction { name: "ahx", operation: Operation::Ahx, address_mode: AddressMode::AbsoluteY, cycles: 5 },
        0xa0 => Instruction { name: "ldy", operation: Operation::Ldy, address_mode: AddressMode::Immediate, cycles: 2 },
        0xa1 => Instruction { name: "lda", operation: Operation::Lda, address_mode: AddressMode::IndirectX, cycles: 6 },
        0xa2 => Instruction { name: "ldx", operation: Operation::Ldx, address_mode: AddressMode::Immediate, cycles: 2 },
        0xa3 => Instruction { name: "lax", operation: Operation::Lax, address_mode: AddressMode::IndirectX, cycles: 6 },
        0xa4 => Instruction { name: "ldy", operation: Operation::Ldy, address_mode: AddressMode::ZeroPage, cycles: 3 },
        0xa5 => Instruction { name: "lda", operation: Operation::Lda, address_mode: AddressMode::ZeroPage, cycles: 3 },
        0xa6 => Instruction { name: "ldx", operation: Operation::Ldx, address_mode: AddressMode::ZeroPage, cycles: 3 },
        0xa7 => Instruction { name: "lax", operation: Operation::Lax, address_mode: AddressMode::ZeroPage, cycles: 3 },
        0xa8 => Instruction { name: "tay", operation: Operation::Tay, address_mode: AddressMode::Implied, cycles: 2 },
        0xa9 => Instruction { name: "lda", operation: Operation::Lda, address_mode: AddressMode::Immediate, cycles: 2 },
        0xaa => Instruction { name: "tax", operation: Operation::Tax, address_mode: AddressMode::Implied, cycles: 2 },
        0xab => Instruction { name: "lax", operation: Operation::Lax, address_mode: AddressMode::Immediate, cycles: 2 },
        0xac => Instruction { name: "ldy", operation: Operation::Ldy, address_mode: AddressMode::Absolute, cycles: 4 },
        0xad => Instruction { name: "lda", operation: Operation::Lda, address_mode: AddressMode::Absolute, cycles: 4 },
        0xae => Instruction { name: "ldx", operation: Operation::Ldx, address_mode: AddressMode::Absolute, cycles: 4 },
        0xaf => Instruction { name: "lax", operation: Operation::Lax, address_mode: AddressMode::Absolute, cycles: 4 },
        0xb0 => Instruction { name: "bcs", operation: Operation::Bcs, address_mode: AddressMode::Relative, cycles: 2 },
        0xb1 => Instruction { name: "lda", operation: Operation::Lda, address_mode: AddressMode::IndirectY, cycles: 5 },
        0xb2 => Instruction { name: "kil", operation: Operation::Kil, address_mode: AddressMode::Implied, cycles: 0 },
        0xb3 => Instruction { name: "lax", operation: Operation::Lax, address_mode: AddressMode::IndirectY, cycles: 5 },
        0xb4 => Instruction { name: "ldy", operation: Operation::Ldy, address_mode: AddressMode::ZeroPageX, cycles: 4 },
        0xb5 => Instruction { name: "lda", operation: Operation::Lda, address_mode: AddressMode::ZeroPageX, cycles: 4 },
        0xb6 => Instruction { name: "ldx", operation: Operation::Ldx, address_mode: AddressMode::ZeroPageY, cycles: 4 },
        0xb7 => Instruction { name: "lax", operation: Operation::Lax, address_mode: AddressMode::ZeroPageY, cycles: 4 },
        0xb8 => Instruction { name: "clv", operation: Operation::Clv, address_mode: AddressMode::Implied, cycles: 2 },
        0xb9 => Instruction { name: "lda", operation: Operation::Lda, address_mode: AddressMode::AbsoluteY, cycles: 4 },
        0xba => Instruction { name: "tsx", operation: Operation::Tsx, address_mode: AddressMode::Implied, cycles: 2 },
        0xbb => Instruction { name: "las", operation: Operation::Las, address_mode: AddressMode::AbsoluteY, cycles: 4 },
        0xbc => Instruction { name: "ldy", operation: Operation::Ldy, address_mode: AddressMode::AbsoluteX, cycles: 4 },
        0xbd => Instruction { name: "lda", operation: Operation::Lda, address_mode: AddressMode::AbsoluteX, cycles: 4 },
        0xbe => Instruction { name: "ldx", operation: Operation::Ldx, address_mode: AddressMode::AbsoluteY, cycles: 4 },
        0xbf => Instruction { name: "lax", operation: Operation::Lax, address_mode: AddressMode::AbsoluteY, cycles: 4 },
        0xc0 => Instruction { name: "cpy", operation: Operation::Cpy, address_mode: AddressMode::Immediate, cycles: 2 },
        0xc1 => Instruction { name: "cmp", operation: Operation::Cmp, address_mode: AddressMode::IndirectX, cycles: 6 },
        0xc2 => Instruction { name: "nop", operation: Operation::Nop, address_mode: AddressMode::Immediate, cycles: 2 },
        0xc3 => Instruction { name: "dcp", operation: Operation::Dcp, address_mode: AddressMode::IndirectX, cycles: 8 },
        0xc4 => Instruction { name: "cpy", operation: Operation::Cpy, address_mode: AddressMode::ZeroPage, cycles: 3 },
        0xc5 => Instruction { name: "cmp", operation: Operation::Cmp, address_mode: AddressMode::ZeroPage, cycles: 3 },
        0xc6 => Instruction { name: "dec", operation: Operation::Dec, address_mode: AddressMode::ZeroPage, cycles: 5 },
        0xc7 => Instruction { name: "dcp", operation: Operation::Dcp, address_mode: AddressMode::ZeroPage, cycles: 5 },
        0xc8 => Instruction { name: "iny", operation: Operation::Iny, address_mode: AddressMode::Implied, cycles: 2 },
        0xc9 => Instruction { name: "cmp", operation: Operation::Cmp, address_mode: AddressMode::Immediate, cycles: 2 },
        0xca => Instruction { name: "dex", operation: Operation::Dex, address_mode: AddressMode::Implied, cycles: 2 },
        0xcb => Instruction { name: "axs", operation: Operation::Axs, address_mode: AddressMode::Immediate, cycles: 2 },
        0xcc => Instruction { name: "cpy", operation: Operation::Cpy, address_mode: AddressMode::Absolute, cycles: 4 },
        0xcd => Instruction { name: "cmp", operation: Operation::Cmp, address_mode: AddressMode::Absolute, cycles: 4 },
        0xce => Instruction { name: "dec", operation: Operation::Dec, address_mode: AddressMode::Absolute, cycles: 6 },
        0xcf => Instruction { name: "dcp", operation: Operation::Dcp, address_mode: AddressMode::Absolute, cycles: 6 },
        0xd0 => Instruction { name: "bne", operation: Operation::Bne, address_mode: AddressMode::Relative, cycles: 2 },
        0xd1 => Instruction { name: "cmp", operation: Operation::Cmp, address_mode: AddressMode::IndirectY, cycles: 5 },
        0xd2 => Instruction { name: "kil", operation: Operation::Kil, address_mode: AddressMode::Implied, cycles: 0 },
        0xd3 => Instruction { name: "dcp", operation: Operation::Dcp, address_mode: AddressMode::IndirectYConst, cycles: 8 },
        0xd4 => Instruction { name: "nop", operation: Operation::Nop, address_mode: AddressMode::ZeroPageX, cycles: 4 },
        0xd5 => Instruction { name: "cmp", operation: Operation::Cmp, address_mode: AddressMode::ZeroPageX, cycles: 4 },
        0xd6 => Instruction { name: "dec", operation: Operation::Dec, address_mode: AddressMode::ZeroPageX, cycles: 6 },
        0xd7 => Instruction { name: "dcp", operation: Operation::Dcp, address_mode: AddressMode::ZeroPageX, cycles: 6 },
        0xd8 => Instruction { name: "cld", operation: Operation::Cld, address_mode: AddressMode::Implied, cycles: 2 },
        0xd9 => Instruction { name: "cmp", operation: Operation::Cmp, address_mode: AddressMode::AbsoluteY, cycles: 4 },
        0xda => Instruction { name: "nop", operation: Operation::Nop, address_mode: AddressMode::Implied, cycles: 2 },
        0xdb => Instruction { name: "dcp", operation: Operation::Dcp, address_mode: AddressMode::AbsoluteYConst, cycles: 7 },
        0xdc => Instruction { name: "nop", operation: Operation::Nop, address_mode: AddressMode::AbsoluteX, cycles: 4 },
        0xdd => Instruction { name: "cmp", operation: Operation::Cmp, address_mode: AddressMode::AbsoluteX, cycles: 4 },
        0xde => Instruction { name: "dec", operation: Operation::Dec, address_mode: AddressMode::AbsoluteXConst, cycles: 7 },
        0xdf => Instruction { name: "dcp", operation: Operation::Dcp, address_mode: AddressMode::AbsoluteXConst, cycles: 7 },
        0xe0 => Instruction { name: "cpx", operation: Operation::Cpx, address_mode: AddressMode::Immediate, cycles: 2 },
        0xe1 => Instruction { name: "sbc", operation: Operation::Sbc, address_mode: AddressMode::IndirectX, cycles: 6 },
        0xe2 => Instruction { name: "nop", operation: Operation::Nop, address_mode: AddressMode::Immediate, cycles: 2 },
        0xe3 => Instruction { name: "isc", operation: Operation::Isc, address_mode: AddressMode::IndirectX, cycles: 8 },
        0xe4 => Instruction { name: "cpx", operation: Operation::Cpx, address_mode: AddressMode::ZeroPage, cycles: 3 },
        0xe5 => Instruction { name: "sbc", operation: Operation::Sbc, address_mode: AddressMode::ZeroPage, cycles: 3 },
        0xe6 => Instruction { name: "inc", operation: Operation::Inc, address_mode: AddressMode::ZeroPage, cycles: 5 },
        0xe7 => Instruction { name: "isc", operation: Operation::Isc, address_mode: AddressMode::ZeroPage, cycles: 5 },
        0xe8 => Instruction { name: "inx", operation: Operation::Inx, address_mode: AddressMode::Implied, cycles: 2 },
        0xe9 => Instruction { name: "sbc", operation: Operation::Sbc, address_mode: AddressMode::Immediate, cycles: 2 },
        0xea => Instruction { name: "nop", operation: Operation::Nop, address_mode: AddressMode::Implied, cycles: 2 },
        0xeb => Instruction { name: "sbc", operation: Operation::Sbc, address_mode: AddressMode::Immediate, cycles: 2 },
        0xec => Instruction { name: "cpx", operation: Operation::Cpx, address_mode: AddressMode::Absolute, cycles: 4 },
        0xed => Instruction { name: "sbc", operation: Operation::Sbc, address_mode: AddressMode::Absolute, cycles: 4 },
        0xee => Instruction { name: "inc", operation: Operation::Inc, address_mode: AddressMode::Absolute, cycles: 6 },
        0xef => Instruction { name: "isc", operation: Operation::Isc, address_mode: AddressMode::Absolute, cycles: 6 },
        0xf0 => Instruction { name: "beq", operation: Operation::Beq, address_mode: AddressMode::Relative, cycles: 2 },
        0xf1 => Instruction { name: "sbc", operation: Operation::Sbc, address_mode: AddressMode::IndirectY, cycles: 5 },
        0xf2 => Instruction { name: "kil", operation: Operation::Kil, address_mode: AddressMode::Implied, cycles: 0 },
        0xf3 => Instruction { name: "isc", operation: Operation::Isc, address_mode: AddressMode::IndirectYConst, cycles: 8 },
        0xf4 => Instruction { name: "nop", operation: Operation::Nop, address_mode: AddressMode::ZeroPageX, cycles: 4 },
        0xf5 => Instruction { name: "sbc", operation: Operation::Sbc, address_mode: AddressMode::ZeroPageX, cycles: 4 },
        0xf6 => Instruction { name: "inc", operation: Operation::Inc, address_mode: AddressMode::ZeroPageX, cycles: 6 },
        0xf7 => Instruction { name: "isc", operation: Operation::Isc, address_mode: AddressMode::ZeroPageX, cycles: 6 },
        0xf8 => Instruction { name: "sed", operation: Operation::Sed, address_mode: AddressMode::Implied, cycles: 2 },
        0xf9 => Instruction { name: "sbc", operation: Operation::Sbc, address_mode: AddressMode::AbsoluteY, cycles: 4 },
        0xfa => Instruction { name: "nop", operation: Operation::Nop, address_mode: AddressMode::Implied, cycles: 2 },
        0xfb => Instruction { name: "isc", operation: Operation::Isc, address_mode: AddressMode::AbsoluteYConst, cycles: 7 },
        0xfc => Instruction { name: "nop", operation: Operation::Nop, address_mode: AddressMode::AbsoluteX, cycles: 4 },
        0xfd => Instruction { name: "sbc", operation: Operation::Sbc, address_mode: AddressMode::AbsoluteX, cycles: 4 },
        0xfe => Instruction { name: "inc", operation: Operation::Inc, address_mode: AddressMode::AbsoluteXConst, cycles: 7 },
        _ => Instruction { name: "isc", operation: Operation::Isc, address_mode: AddressMode::AbsoluteXConst, cycles: 7 },
    }
}

} // verus!
