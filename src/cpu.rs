//! The processor's registers and status flags.
use crate::bus::{got, make_word, read_16, word, BusAccess, Interface6502};
use vstd::prelude::*;

verus! {

/// The page that holds the stack
pub const STACK_PAGE: u16 = 0x0100;

/// The address of the vector read when a non-maskable interrupt request is serviced
pub const NMI_ADDRESS_LOCATION: u16 = 0xfffa;

/// The address of the vector read on reset
pub const RESET_ADDRESS_LOCATION: u16 = 0xfffc;

/// The address of the vector read when an interrupt request is serviced or BRK runs
pub const IRQ_ADDRESS_LOCATION: u16 = 0xfffe;

/// The status register's value at power-on
pub const BOOT_STATUS: u8 = 0x24;

/// The status register's value after a reset
pub const RESET_STATUS: u8 = 0x34;

/// The flags of the status register, each standing for its bit (or bits) of that register.
#[derive(Debug, Clone, Copy, PartialEq, Eq, Structural)]
pub enum StatusFlag {
    Carry,
    Zero,
    InterruptDisable,
    Decimal,
    /// Both break bits: the one that is always written and the one only meaningful on the stack
    Break,
    /// The break bit that is set when an interrupt pushes the status register
    BreakIrq,
    Overflow,
    Negative,
}

impl StatusFlag {
    /// The bits of the status register that stand for the flag.
    pub open spec fn mask_spec(self) -> u8 {
        match self {
            StatusFlag::Carry => 0x01,
            StatusFlag::Zero => 0x02,
            StatusFlag::InterruptDisable => 0x04,
            StatusFlag::Decimal => 0x08,
            StatusFlag::Break => 0x30,
            StatusFlag::BreakIrq => 0x20,
            StatusFlag::Overflow => 0x40,
            StatusFlag::Negative => 0x80,
        }
    }

    /// The bits of the status register that stand for the flag.
    #[verifier::when_used_as_spec(mask_spec)]
    pub fn mask(self) -> (r: u8)
        ensures
            r == self.mask_spec(),
    {
        match self {
            StatusFlag::Carry => 0x01,
            StatusFlag::Zero => 0x02,
            StatusFlag::InterruptDisable => 0x04,
            StatusFlag::Decimal => 0x08,
            StatusFlag::Break => 0x30,
            StatusFlag::BreakIrq => 0x20,
            StatusFlag::Overflow => 0x40,
            StatusFlag::Negative => 0x80,
        }
    }
}

/// The status byte `status` with the bits of `flag` all set when `value` holds, all clear
/// otherwise, and every other bit as it was.
pub open spec fn with_flag(status: u8, flag: StatusFlag, value: bool) -> u8 {
    if value {
        (status & !flag.mask()) | flag.mask()
    } else {
        status & !flag.mask()
    }
}

/// Whether any bit of `flag` is set in the status byte.
pub open spec fn flag_of(status: u8, flag: StatusFlag) -> bool {
    status & flag.mask() != 0
}

/// Setting a flag makes it read back as the value given.
pub proof fn lemma_with_flag_same(status: u8, flag: StatusFlag, value: bool)
    ensures
        flag_of(with_flag(status, flag, value), flag) == value,
{
    let m = flag.mask();
    assert(m != 0);
    assert(((status & !m) | m) & m != 0) by (bit_vector)
        requires
            m != 0,
    ;
    assert((status & !m) & m == 0) by (bit_vector);
}

/// Setting a flag leaves a flag with other bits reading as it did.
pub proof fn lemma_with_flag_other(status: u8, flag: StatusFlag, value: bool, other: StatusFlag)
    requires
        flag.mask() & other.mask() == 0,
    ensures
        with_flag(status, flag, value) & other.mask() == status & other.mask(),
{
    let (m, g) = (flag.mask(), other.mask());
    assert(((status & !m) | m) & g == status & g) by (bit_vector)
        requires
            m & g == 0,
    ;
    assert((status & !m) & g == status & g) by (bit_vector)
        requires
            m & g == 0,
    ;
}

/// The address of the stack slot that the stack pointer designates.
pub open spec fn stack_address(stack_pointer: u8) -> u16 {
    (STACK_PAGE + stack_pointer) as u16
}

/// The two writes that push a 16-bit word with the stack pointer at `sp`, high byte first.
pub open spec fn push_16_writes(sp: u8, data: u16) -> Seq<BusAccess> {
    seq![
        BusAccess::Write(stack_address(sp), (data / 256) as u8),
        BusAccess::Write(stack_address(sp.wrapping_sub(1)), (data % 256) as u8),
    ]
}

/// The two reads that pop a 16-bit word with the stack pointer at `sp`, low byte first.
pub open spec fn pop_16_reads(sp: u8, lo: u8, hi: u8) -> Seq<BusAccess> {
    seq![
        BusAccess::Read(stack_address(sp.wrapping_add(1)), lo),
        BusAccess::Read(stack_address(sp.wrapping_add(2)), hi),
    ]
}

/// The state of a MOS 6502 processor.
#[derive(Debug, Clone, Copy, PartialEq, Eq, Structural)]
pub struct MOS6502 {
    /// The accumulator register, where the results of arithmetic opcodes are placed
    pub accumulator: u8,
    /// The x register
    pub x_register: u8,
    /// The y register
    pub y_register: u8,
    /// Address of the instruction that will be executed next
    pub program_counter: u16,
    /// The top of the stack, within the stack page
    pub stack_pointer: u8,
    /// The status flags
    pub status_register: u8,
    /// The number of cycles before the next instruction is fetched
    pub remaining_cycles: u8,
    /// The number of cycles that have passed since the processor was created
    pub total_cycles: u64,
    /// Whether a non-maskable interrupt request is waiting to be serviced
    pub pending_nmi: bool,
    /// Whether an interrupt request is waiting to be serviced
    pub pending_irq: bool,
    /// Whether ADC and SBC apply binary coded decimal correction when the Decimal flag is set
    pub decimal_mode_enabled: bool,
    /// Whether the undocumented opcodes act; when they do not, they only spend their cycles
    pub illegal_opcodes_enabled: bool,
}

impl MOS6502 {
    /// The state at power-on: the program counter at 0x0400, the stack pointer at 0xFD, the status
    /// register at 0x24, the data registers clear, nothing pending and both options off.
    pub open spec fn boot() -> MOS6502 {
        MOS6502 {
            accumulator: 0,
            x_register: 0,
            y_register: 0,
            program_counter: 0x0400,
            stack_pointer: 0xfd,
            status_register: BOOT_STATUS,
            remaining_cycles: 0,
            total_cycles: 0,
            pending_nmi: false,
            pending_irq: false,
            decimal_mode_enabled: false,
            illegal_opcodes_enabled: false,
        }
    }

    /// Creates a new MOS6502 emulation with the program counter at 0x0400
    pub fn new() -> (r: Self)
        ensures
            r == MOS6502::boot(),
    {
        MOS6502 {
            accumulator: 0x00,
            x_register: 0x00,
            y_register: 0x00,
            program_counter: 0x0400,
            stack_pointer: 0xfd,
            status_register: BOOT_STATUS,
            remaining_cycles: 0,
            total_cycles: 0,
            pending_nmi: false,
            pending_irq: false,
            decimal_mode_enabled: false,
            illegal_opcodes_enabled: false,
        }
    }

    /// Creates a new MOS6502 emulation with the program counter at the provided start address
    pub fn new_start(start: u16) -> (r: Self)
        ensures
            r == (MOS6502 { program_counter: start, ..MOS6502::boot() }),
    {
        MOS6502 { program_counter: start, ..MOS6502::new() }
    }

    /// Creates a new MOS6502 emulation with the program counter at the address read from the
    /// reset vector (0xfffc-0xfffd).
    pub fn new_reset_position<B: Interface6502>(interface: &mut B) -> (r: Self)
        ensures
            ({
                let (b, a) = (old(interface).accesses(), final(interface).accesses());
                &&& a == b + seq![
                    BusAccess::Read(RESET_ADDRESS_LOCATION, got(b, a, 0)),
                    BusAccess::Read((RESET_ADDRESS_LOCATION + 1) as u16, got(b, a, 1)),
                ]
                &&& r == (MOS6502 {
                    program_counter: word(got(b, a, 0), got(b, a, 1)),
                    ..MOS6502::boot()
                })
            }),
    {
        let start = read_16(interface, RESET_ADDRESS_LOCATION);
        MOS6502 { program_counter: start, ..MOS6502::new() }
    }

    /// Force the program counter to a specific address
    pub fn set_program_counter(&mut self, program_counter: u16)
        ensures
            *final(self) == (MOS6502 { program_counter, ..*old(self) }),
    {
        self.program_counter = program_counter;
    }

    /// Returns the value of the program counter register
    pub fn get_program_counter(&self) -> (r: u16)
        ensures
            r == self.program_counter,
    {
        self.program_counter
    }

    /// Returns the value of the accumulator register
    pub fn get_accumulator(&self) -> (r: u8)
        ensures
            r == self.accumulator,
    {
        self.accumulator
    }

    /// Sets the value of the accumulator register
    pub fn set_accumulator(&mut self, value: u8)
        ensures
            *final(self) == (MOS6502 { accumulator: value, ..*old(self) }),
    {
        self.accumulator = value;
    }

    /// Returns the value of the X register
    pub fn get_x_register(&self) -> (r: u8)
        ensures
            r == self.x_register,
    {
        self.x_register
    }

    /// Sets the value of the X register
    pub fn set_x_register(&mut self, value: u8)
        ensures
            *final(self) == (MOS6502 { x_register: value, ..*old(self) }),
    {
        self.x_register = value;
    }

    /// Returns the value of the Y register
    pub fn get_y_register(&self) -> (r: u8)
        ensures
            r == self.y_register,
    {
        self.y_register
    }

    /// Sets the value of the Y register
    pub fn set_y_register(&mut self, value: u8)
        ensures
            *final(self) == (MOS6502 { y_register: value, ..*old(self) }),
    {
        self.y_register = value;
    }

    /// Returns the value of the stack pointer register
    pub fn get_stack_pointer(&self) -> (r: u8)
        ensures
            r == self.stack_pointer,
    {
        self.stack_pointer
    }

    /// Sets the value of the stack pointer register
    pub fn set_stack_pointer(&mut self, value: u8)
        ensures
            *final(self) == (MOS6502 { stack_pointer: value, ..*old(self) }),
    {
        self.stack_pointer = value;
    }

    /// Returns the value of the status register
    pub fn get_status_register(&self) -> (r: u8)
        ensures
            r == self.status_register,
    {
        self.status_register
    }

    /// Sets the value of the status register
    pub fn set_status_register(&mut self, value: u8)
        ensures
            *final(self) == (MOS6502 { status_register: value, ..*old(self) }),
    {
        self.status_register = value;
    }

    /// Returns the number of remaining cycles for currently running instruction
    pub fn get_remaining_cycles(&self) -> (r: u8)
        ensures
            r == self.remaining_cycles,
    {
        self.remaining_cycles
    }

    /// Request that an interrupt occurs after the current instruction completes
    pub fn interrupt_request(&mut self)
        ensures
            *final(self) == (MOS6502 { pending_irq: true, ..*old(self) }),
    {
        self.pending_irq = true;
    }

    /// Request that an interrupt occurs after the current instruction completes, even if the
    /// interrupt disable flag is set
    pub fn non_maskable_interrupt_request(&mut self)
        ensures
            *final(self) == (MOS6502 { pending_nmi: true, ..*old(self) }),
    {
        self.pending_nmi = true;
    }

    /// Resets the processor to a known state: the program counter from the reset vector, the
    /// data registers clear, the stack pointer at 0xFD, the status register at 0x34, and eight
    /// cycles to spend before the next instruction.
    pub fn reset<B: Interface6502>(&mut self, interface: &mut B)
        ensures
            ({
                let (b, a) = (old(interface).accesses(), final(interface).accesses());
                &&& a == b + seq![
                    BusAccess::Read(RESET_ADDRESS_LOCATION, got(b, a, 0)),
                    BusAccess::Read((RESET_ADDRESS_LOCATION + 1) as u16, got(b, a, 1)),
                ]
                &&& *final(self) == (MOS6502 {
                    program_counter: word(got(b, a, 0), got(b, a, 1)),
                    accumulator: 0,
                    x_register: 0,
                    y_register: 0,
                    stack_pointer: 0xfd,
                    status_register: RESET_STATUS,
                    remaining_cycles: 8,
                    ..*old(self)
                })
            }),
    {
        self.program_counter = read_16(interface, RESET_ADDRESS_LOCATION);
        self.accumulator = 0x00;
        self.x_register = 0x00;
        self.y_register = 0x00;
        self.stack_pointer = 0xfd;
        self.status_register = RESET_STATUS;
        self.remaining_cycles = 8;
    }

    /// Pushes a byte onto the stack: writes it at the slot the stack pointer designates, then
    /// moves the stack pointer down (wrapping within the stack page).
    pub fn push_stack<B: Interface6502>(&mut self, interface: &mut B, data: u8)
        ensures
            final(interface).accesses() == old(interface).accesses().push(
                BusAccess::Write(stack_address(old(self).stack_pointer), data),
            ),
            *final(self) == (MOS6502 {
                stack_pointer: old(self).stack_pointer.wrapping_sub(1),
                ..*old(self)
            }),
    {
        interface.write(STACK_PAGE + self.stack_pointer as u16, data);
        self.stack_pointer = self.stack_pointer.wrapping_sub(1);
    }

    /// Pushes two bytes onto the stack, the high byte first.
    pub fn push_stack_16<B: Interface6502>(&mut self, interface: &mut B, data: u16)
        ensures
            final(interface).accesses() == old(interface).accesses() + push_16_writes(
                old(self).stack_pointer,
                data,
            ),
            *final(self) == (MOS6502 {
                stack_pointer: old(self).stack_pointer.wrapping_sub(2),
                ..*old(self)
            }),
    {
        let hi = (data >> 8u16) as u8;
        let lo = data as u8;
        assert(hi == data / 256 && lo == data % 256) by (bit_vector)
            requires
                hi == (data >> 8u16) as u8,
                lo == data as u8,
        ;
        self.push_stack(interface, hi);
        self.push_stack(interface, lo);
        assert(interface.accesses() =~= old(interface).accesses() + push_16_writes(
            old(self).stack_pointer,
            data,
        ));
    }

    /// Pops a byte from the stack: moves the stack pointer up (wrapping within the stack page),
    /// then reads the slot it designates.
    pub fn pop_stack<B: Interface6502>(&mut self, interface: &mut B) -> (r: u8)
        ensures
            final(interface).accesses() == old(interface).accesses().push(
                BusAccess::Read(stack_address(old(self).stack_pointer.wrapping_add(1)), r),
            ),
            *final(self) == (MOS6502 {
                stack_pointer: old(self).stack_pointer.wrapping_add(1),
                ..*old(self)
            }),
    {
        self.stack_pointer = self.stack_pointer.wrapping_add(1);
        interface.read(STACK_PAGE + self.stack_pointer as u16)
    }

    /// Pops two bytes from the stack, the low byte first.
    pub fn pop_stack_16<B: Interface6502>(&mut self, interface: &mut B) -> (r: u16)
        ensures
            ({
                let (b, a) = (old(interface).accesses(), final(interface).accesses());
                let sp = old(self).stack_pointer;
                &&& a == b + pop_16_reads(sp, got(b, a, 0), got(b, a, 1))
                &&& r == word(got(b, a, 0), got(b, a, 1))
            }),
            *final(self) == (MOS6502 {
                stack_pointer: old(self).stack_pointer.wrapping_add(2),
                ..*old(self)
            }),
    {
        let lo = self.pop_stack(interface);
        let hi = self.pop_stack(interface);
        let ghost (b, a) = (old(interface).accesses(), interface.accesses());
        assert(a =~= b + pop_16_reads(old(self).stack_pointer, got(b, a, 0), got(b, a, 1)));
        make_word(lo, hi)
    }

    /// Sets a status flag to the given boolean value
    pub fn set_flag(&mut self, flag: StatusFlag, value: bool)
        ensures
            *final(self) == (MOS6502 {
                status_register: with_flag(old(self).status_register, flag, value),
                ..*old(self)
            }),
    {
        self.status_register = self.status_register & !flag.mask();
        if value {
            self.status_register = self.status_register | flag.mask();
        }
    }

    /// Returns the value of a flag in the status register as a boolean
    pub fn get_flag(&self, flag: StatusFlag) -> (r: bool)
        ensures
            r == flag_of(self.status_register, flag),
    {
        self.status_register & flag.mask() != 0
    }
}

impl Default for MOS6502 {
    fn default() -> (r: Self)
        ensures
            r == MOS6502::boot(),
    {
        MOS6502::new()
    }
}

} // verus!
