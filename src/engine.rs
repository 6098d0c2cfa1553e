//! The fetch-decode-execute driver and the interrupt sequence.
use crate::address_modes::{advanced, resolves, AddressModeValue};
use crate::bus::{got, read_16, word, BusAccess, Interface6502};
use crate::cpu::{
    flag_of, with_flag, StatusFlag, IRQ_ADDRESS_LOCATION, MOS6502, NMI_ADDRESS_LOCATION,
};
use crate::opcodes::interrupt_accesses;
use crate::table::{decode, execute, find_address, performs, table};
use vstd::prelude::*;

verus! {

/// The state after one cycle has been spent: one fewer cycle left (none when none were left) and
/// one more cycle counted.
pub open spec fn ticked(cpu: MOS6502) -> MOS6502 {
    MOS6502 {
        remaining_cycles: if cpu.remaining_cycles > 0 {
            (cpu.remaining_cycles - 1) as u8
        } else {
            0
        },
        total_cycles: (cpu.total_cycles + 1) as u64,
        ..cpu
    }
}

/// Whether an interrupt is serviced at the next instruction boundary: a non-maskable one always,
/// another one unless InterruptDisable is set.
pub open spec fn interrupt_due(cpu: MOS6502) -> bool {
    cpu.pending_nmi || (cpu.pending_irq && !flag_of(cpu.status_register, StatusFlag::InterruptDisable))
}

/// The state after servicing an interrupt (non-maskable when `nmi`) whose vector held `lo` and
/// `hi`: the program counter from the vector, three bytes pushed, InterruptDisable set, the
/// latch of that interrupt cleared, and eight (NMI) or seven cycles to spend.
pub open spec fn interrupted(cpu: MOS6502, nmi: bool, lo: u8, hi: u8) -> MOS6502 {
    MOS6502 {
        program_counter: word(lo, hi),
        stack_pointer: cpu.stack_pointer.wrapping_sub(3),
        status_register: with_flag(cpu.status_register, StatusFlag::InterruptDisable, true),
        remaining_cycles: if nmi {
            8
        } else {
            7
        },
        pending_nmi: if nmi {
            false
        } else {
            cpu.pending_nmi
        },
        pending_irq: if nmi {
            cpu.pending_irq
        } else {
            false
        },
        ..cpu
    }
}

/// One instruction dispatched from the state `before` and the interface `b`: the opcode read at
/// the program counter (record `fetched`), its operand resolved by the table's addressing mode
/// (to state `resolved` and interface `b2`), its operation performed (to state `done` and
/// interface `a`), and its cycles added.
pub open spec fn dispatched<B: Interface6502>(
    before: MOS6502,
    b: B,
    a: B,
    after: MOS6502,
    fetched: Seq<BusAccess>,
    b2: B,
    resolved: MOS6502,
    done: MOS6502,
    operand: AddressModeValue,
) -> bool {
    let opcode = got(b.accesses(), fetched, 0);
    let (op, mode, cycles) = table(opcode);
    &&& fetched == b.accesses().push(BusAccess::Read(before.program_counter, opcode))
    &&& resolves(mode, fetched, b2.accesses(), advanced(before, 1), resolved, operand)
    &&& performs(op, b2, a, resolved, done, operand)
    &&& after == ticked(MOS6502 { remaining_cycles: (done.remaining_cycles + cycles) as u8, ..done })
}

/// What one call of `cycle` does, from the state `before` and the interface `b` to the state
/// `after` and the interface `a`: mid-instruction it only spends a cycle; at an instruction
/// boundary it services a due interrupt, or else fetches and runs the next instruction.
pub open spec fn steps<B: Interface6502>(before: MOS6502, b: B, after: MOS6502, a: B) -> bool {
    if before.remaining_cycles != 0 {
        a.accesses() == b.accesses() && after == ticked(before)
    } else if interrupt_due(before) {
        let nmi = before.pending_nmi;
        let (b, a) = (b.accesses(), a.accesses());
        &&& a == b + interrupt_accesses(
            before.stack_pointer,
            before.program_counter,
            before.status_register | StatusFlag::BreakIrq.mask(),
            if nmi {
                NMI_ADDRESS_LOCATION
            } else {
                IRQ_ADDRESS_LOCATION
            },
            got(b, a, 3),
            got(b, a, 4),
        )
        &&& after == ticked(interrupted(before, nmi, got(b, a, 3), got(b, a, 4)))
    } else {
        exists|fetched: Seq<BusAccess>, b2: B, resolved: MOS6502, done: MOS6502, operand: AddressModeValue|
            #[trigger] dispatched(before, b, a, after, fetched, b2, resolved, done, operand)
    }
}

/// `run` is a sequence of states and interfaces, each step of which is one cycle, that ends at
/// an instruction boundary and passes none before its end.
pub open spec fn runs_to_boundary<B: Interface6502>(run: Seq<(MOS6502, B)>) -> bool {
    &&& run.len() >= 2
    &&& forall|i: int|
        0 <= i < run.len() - 1 ==> #[trigger] steps(run[i].0, run[i].1, run[i + 1].0, run[i + 1].1)
    &&& forall|i: int| 0 < i < run.len() - 1 ==> (#[trigger] run[i]).0.remaining_cycles != 0
    &&& run.last().0.remaining_cycles == 0
}

impl MOS6502 {
    /// Services a due interrupt: pushes the program counter and the status (with the interrupt's
    /// break bit set in the pushed copy only), sets InterruptDisable and jumps through the
    /// vector.
    fn service_interrupt<B: Interface6502>(&mut self, interface: &mut B)
        requires
            old(self).remaining_cycles == 0,
            interrupt_due(*old(self)),
        ensures
            ({
                let nmi = old(self).pending_nmi;
                let (b, a) = (old(interface).accesses(), final(interface).accesses());
                &&& a == b + interrupt_accesses(
                    old(self).stack_pointer,
                    old(self).program_counter,
                    old(self).status_register | StatusFlag::BreakIrq.mask(),
                    if nmi {
                        NMI_ADDRESS_LOCATION
                    } else {
                        IRQ_ADDRESS_LOCATION
                    },
                    got(b, a, 3),
                    got(b, a, 4),
                )
                &&& *final(self) == interrupted(*old(self), nmi, got(b, a, 3), got(b, a, 4))
            }),
    {
        let ghost b = interface.accesses();
        self.push_stack_16(interface, self.program_counter);
        let status = self.status_register | StatusFlag::BreakIrq.mask();
        self.push_stack(interface, status);
        self.set_flag(StatusFlag::InterruptDisable, true);
        let vector = if self.pending_nmi {
            NMI_ADDRESS_LOCATION
        } else {
            IRQ_ADDRESS_LOCATION
        };
        self.program_counter = read_16(interface, vector);
        if self.pending_nmi {
            self.remaining_cycles = 8;
            self.pending_nmi = false;
        } else {
            self.remaining_cycles = 7;
            self.pending_irq = false;
        }
        let ghost a = interface.accesses();
        assert(a =~= b + interrupt_accesses(
            old(self).stack_pointer,
            old(self).program_counter,
            status,
            vector,
            got(b, a, 3),
            got(b, a, 4),
        ));
    }

    /// Fetches, decodes and runs the instruction at the program counter, then spends the first of
    /// its cycles.
    fn dispatch<B: Interface6502>(&mut self, interface: &mut B)
        requires
            old(self).remaining_cycles == 0,
            old(self).total_cycles < u64::MAX,
        ensures
            exists|fetched: Seq<BusAccess>, b2: B, resolved: MOS6502, done: MOS6502, operand: AddressModeValue|
                #[trigger] dispatched(
                    *old(self),
                    *old(interface),
                    *final(interface),
                    *final(self),
                    fetched,
                    b2,
                    resolved,
                    done,
                    operand,
                ),
            final(self).remaining_cycles <= 10,
            final(self).total_cycles == old(self).total_cycles + 1,
    {
        let ghost (b, before) = (*interface, *self);
        let opcode = interface.read(self.program_counter);
        let instruction = decode(opcode);
        self.program_counter = self.program_counter.wrapping_add(1);
        let ghost fetched = interface.accesses();
        let operand = find_address(instruction.address_mode, self, interface);
        let ghost (b2, resolved) = (*interface, *self);
        execute(instruction.operation, self, interface, operand);
        let ghost done = *self;
        self.remaining_cycles = self.remaining_cycles + instruction.cycles;
        if self.remaining_cycles > 0 {
            self.remaining_cycles = self.remaining_cycles - 1;
        }
        self.total_cycles = self.total_cycles + 1;
        assert(dispatched(before, b, *interface, *self, fetched, b2, resolved, done, operand));
    }

    /// Runs a processor cycle, mutably borrows the reading and writing interface for the duration
    pub fn cycle<B: Interface6502>(&mut self, interface: &mut B)
        requires
            old(self).total_cycles < u64::MAX,
        ensures
            steps(*old(self), *old(interface), *final(self), *final(interface)),
            final(self).total_cycles == old(self).total_cycles + 1,
            old(self).remaining_cycles != 0 ==> final(self).remaining_cycles
                == old(self).remaining_cycles - 1,
            final(self).remaining_cycles <= 10 || old(self).remaining_cycles != 0,
    {
        if self.remaining_cycles == 0 {
            if self.pending_nmi || (self.pending_irq && !self.get_flag(
                StatusFlag::InterruptDisable,
            )) {
                self.service_interrupt(interface);
            } else {
                self.dispatch(interface);
                return;
            }
        }
        if self.remaining_cycles > 0 {
            self.remaining_cycles = self.remaining_cycles - 1;
        }
        self.total_cycles = self.total_cycles + 1;
    }
}

impl MOS6502 {
    /// Runs as many processor cycles as it takes to complete the instruction at the program
    /// counter: at least one cycle, then more until an instruction boundary is reached
    pub fn execute_instruction<B: Interface6502>(&mut self, interface: &mut B)
        requires
            old(self).total_cycles <= u64::MAX - 256,
        ensures
            exists|run: Seq<(MOS6502, B)>|
                #[trigger] runs_to_boundary(run) && run[0] == (*old(self), *old(interface))
                    && run.last() == (*final(self), *final(interface)),
    {
        let ghost start = (*self, *interface);
        self.cycle(interface);
        let ghost mut run: Seq<(MOS6502, B)> = seq![start, (*self, *interface)];
        while self.remaining_cycles != 0
            invariant
                run.len() >= 2,
                run[0] == start,
                start == (*old(self), *old(interface)),
                run.last() == (*self, *interface),
                forall|i: int|
                    0 <= i < run.len() - 1 ==> #[trigger] steps(
                        run[i].0,
                        run[i].1,
                        run[i + 1].0,
                        run[i + 1].1,
                    ),
                forall|i: int| 0 < i < run.len() - 1 ==> (#[trigger] run[i]).0.remaining_cycles != 0,
                self.total_cycles + self.remaining_cycles <= old(self).total_cycles + 255,
                old(self).total_cycles <= u64::MAX - 256,
            decreases self.remaining_cycles,
        {
            let ghost before = (*self, *interface);
            self.cycle(interface);
            proof {
                let next = run.push((*self, *interface));
                assert forall|i: int| 0 <= i < next.len() - 1 implies #[trigger] steps(
                    next[i].0,
                    next[i].1,
                    next[i + 1].0,
                    next[i + 1].1,
                ) by {
                    if i < run.len() - 1 {
                        assert(next[i] == run[i] && next[i + 1] == run[i + 1]);
                    } else {
                        assert(next[i] == before);
                    }
                }
                assert forall|i: int| 0 < i < next.len() - 1 implies (#[trigger] next[i]).0.remaining_cycles != 0 by {
                    if i < run.len() - 1 {
                        assert(next[i] == run[i]);
                    }
                }
                run = next;
            }
        }
        assert(runs_to_boundary(run));
    }
}

} // verus!
