#![allow(unused_variables, unused_mut, unused_imports)]

use emulator_6502::{AddressModeValue, Interface6502, StatusFlag, MOS6502};
use emulator_6502::opcodes::{adc, and, asl, bit, branch, brk, compare, dec, dex, dey, eor, inc, inx, iny, jmp, jsr, lda, ldx, ldy, lsr, ora, pha, php, pla, plp, rol, ror, rti, rts, sbc, sta, stx, sty, tax, tay, tsx, txa, txs, tya};

struct StubInterface6502 {
    read: fn(u16, u8) -> u8,
    read_count: u8,
    write: fn(u16, u8, u8),
    write_count: u8,
}

impl StubInterface6502 {
    fn new(read_fn: fn(u16, u8) -> u8, write_fn: fn(u16, u8, u8)) -> Self {
        StubInterface6502 {
            read: read_fn,
            write: write_fn,
            read_count: 0,
            write_count: 0,
        }
    }
}

impl Interface6502 for StubInterface6502 {
    fn read(&mut self, address: u16) -> u8 {
        self.read_count += 1;
        (self.read)(address, self.read_count)
    }

    fn write(&mut self, address: u16, data: u8) {
        self.write_count += 1;
        (self.write)(address, data, self.read_count)
    }
}

impl Default for StubInterface6502 {
    fn default() -> Self {
        StubInterface6502::new(
            |_address, _read_count| panic!("Read Function was not initialized"),
            |_address, _data, _write_count| panic!("Write Function was not initialized"),
        )
    }
}

#[test]
fn mod_test_adc() {
    let mut cpu_initial = MOS6502 {
        accumulator: 0x09,
        x_register: 0x00,
        y_register: 0x00,
        program_counter: 0x0000,
        stack_pointer: 0xfd,
        status_register: 0x00,
        ..Default::default()
    };
    cpu_initial.set_flag(StatusFlag::Carry, true);

    let mut stub_bus = StubInterface6502 {
        read: |address, read_count| match address {
            0x00ff => 0x10,
            _ => panic!("Unintended Address Accessed: 0x{:X}", address),
        },
        write: |address, data, write_count| {
            panic! {"Write function was called"}
        }, ..Default::default()
    };

    let mut cpu_expected = MOS6502 {
        accumulator: 0x1a,
        ..cpu_initial.clone()
    };
    cpu_expected.set_flag(StatusFlag::Carry, false);

    adc(&mut cpu_initial, &mut stub_bus, AddressModeValue::AbsoluteAddress(0x00ff));

    assert_eq!(cpu_initial, cpu_expected);
}

#[test]
fn mod_test_adc_zero_carry_flags() {
    let mut cpu_initial = MOS6502 {
        accumulator: 0xff,
        x_register: 0x00,
        y_register: 0x00,
        program_counter: 0x0000,
        stack_pointer: 0xfd,
        status_register: 0x00,
        ..Default::default()
    };

    let mut stub_bus = StubInterface6502 {
        read: |address, read_count| match address {
            0x00ff => 0x01,
            _ => panic!("Unintended Address Accessed: 0x{:X}", address),
        },
        write: |address, data, write_count| {
            panic! {"Write function was called"}
        }, ..Default::default()
    };

    let mut cpu_expected = MOS6502 {
        accumulator: 0x00,
        ..cpu_initial.clone()
    };
    cpu_expected.set_flag(StatusFlag::Zero, true);
    cpu_expected.set_flag(StatusFlag::Carry, true);

    adc(&mut cpu_initial, &mut stub_bus, AddressModeValue::AbsoluteAddress(0x00ff));

    assert_eq!(cpu_initial, cpu_expected);
}

#[test]
fn mod_test_adc_overflow_negative_flags() {
    let mut cpu_initial = MOS6502 {
        accumulator: 0x7f,
        x_register: 0x00,
        y_register: 0x00,
        program_counter: 0x0000,
        stack_pointer: 0xfd,
        status_register: 0x00,
        ..Default::default()
    };

    let mut stub_bus = StubInterface6502 {
        read: |address, read_count| match address {
            0x00ff => 0x01,
            _ => panic!("Unintended Address Accessed: 0x{:X}", address),
        },
        write: |address, data, write_count| {
            panic! {"Write function was called"}
        }, ..Default::default()
    };

    let mut cpu_expected = MOS6502 {
        accumulator: 0x80,
        ..cpu_initial.clone()
    };
    cpu_expected.set_flag(StatusFlag::Overflow, true);
    cpu_expected.set_flag(StatusFlag::Negative, true);

    adc(&mut cpu_initial, &mut stub_bus, AddressModeValue::AbsoluteAddress(0x00ff));

    assert_eq!(cpu_initial, cpu_expected);
}

#[test]
fn mod_test_adc_decimal_mode() {
    let mut cpu_initial = MOS6502 {
        decimal_mode_enabled: true,
        accumulator: 0x09,
        x_register: 0x00,
        y_register: 0x00,
        program_counter: 0x0000,
        stack_pointer: 0xfd,
        status_register: 0x00,
        ..Default::default()
    };
    cpu_initial.set_flag(StatusFlag::Decimal, true);
    cpu_initial.set_flag(StatusFlag::Carry, true);

    let mut stub_bus = StubInterface6502 {
        read: |address, read_count| match address {
            0x00ff => 0x09,
            _ => panic!("Unintended Address Accessed: 0x{:X}", address),
        },
        write: |address, data, write_count| {
            panic! {"Write function was called"}
        }, ..Default::default()
    };

    let mut cpu_expected = MOS6502 {
        accumulator: 0x19,
        ..cpu_initial.clone()
    };
    cpu_expected.set_flag(StatusFlag::Carry, false);

    adc(&mut cpu_initial, &mut stub_bus, AddressModeValue::AbsoluteAddress(0x00ff));

    assert_eq!(cpu_initial, cpu_expected);
}

#[test]
fn mod_test_adc_decimal_mode_zero_carry_flags() {
    let mut cpu_initial = MOS6502 {
        decimal_mode_enabled: true,
        accumulator: 0x98,
        x_register: 0x00,
        y_register: 0x00,
        program_counter: 0x0000,
        stack_pointer: 0xfd,
        status_register: 0x00,
        ..Default::default()
    };
    cpu_initial.set_flag(StatusFlag::Decimal, true);
    cpu_initial.set_flag(StatusFlag::Carry, true);

    let mut stub_bus = StubInterface6502 {
        read: |address, read_count| match address {
            0x00ff => 0x01,
            _ => panic!("Unintended Address Accessed: 0x{:X}", address),
        },
        write: |address, data, write_count| {
            panic! {"Write function was called"}
        }, ..Default::default()
    };

    let mut cpu_expected = MOS6502 {
        accumulator: 0x00,
        ..cpu_initial.clone()
    };
    cpu_expected.set_flag(StatusFlag::Zero, true);

    adc(&mut cpu_initial, &mut stub_bus, AddressModeValue::AbsoluteAddress(0x00ff));

    assert_eq!(cpu_initial, cpu_expected);
}

#[test]
fn mod_test_adc_decimal_mode_overflow_negative_flags() {
    let mut cpu_initial = MOS6502 {
        decimal_mode_enabled: true,
        accumulator: 0x75,
        x_register: 0x00,
        y_register: 0x00,
        program_counter: 0x0000,
        stack_pointer: 0xfd,
        status_register: 0x00,
        ..Default::default()
    };
    cpu_initial.set_flag(StatusFlag::Decimal, true);

    let mut stub_bus = StubInterface6502 {
        read: |address, read_count| match address {
            0x00ff => 0x06,
            _ => panic!("Unintended Address Accessed: 0x{:X}", address),
        },
        write: |address, data, write_count| {
            panic! {"Write function was called"}
        }, ..Default::default()
    };

    let mut cpu_expected = MOS6502 {
        accumulator: 0x81,
        ..cpu_initial.clone()
    };
    cpu_expected.set_flag(StatusFlag::Negative, true);
    cpu_expected.set_flag(StatusFlag::Overflow, true);

    adc(&mut cpu_initial, &mut stub_bus, AddressModeValue::AbsoluteAddress(0x00ff));

    assert_eq!(cpu_initial, cpu_expected);
}

#[test]
fn mod_test_and() {
    let mut cpu_initial = MOS6502 {
        accumulator: 0x95,
        x_register: 0x00,
        y_register: 0x00,
        program_counter: 0x0000,
        stack_pointer: 0xfd,
        status_register: 0x00,
        ..Default::default()
    };

    let mut stub_bus = StubInterface6502 {
        read: |address, read_count| match address {
            0x00ff => 0x80,
            _ => panic!("Unintended Address Accessed: 0x{:X}", address),
        },
        write: |address, data, write_count| {
            panic! {"Write function was called"}
        }, ..Default::default()
    };

    let mut cpu_expected = MOS6502 {
        accumulator: 0x80,
        ..cpu_initial.clone()
    };
    cpu_expected.set_flag(StatusFlag::Negative, true);

    and(&mut cpu_initial, &mut stub_bus, AddressModeValue::AbsoluteAddress(0x00ff));

    assert_eq!(cpu_initial, cpu_expected);
}

#[test]
fn mod_test_and_zero_flag() {
    let mut cpu_initial = MOS6502 {
        accumulator: 0xf0,
        x_register: 0x00,
        y_register: 0x00,
        program_counter: 0x0000,
        stack_pointer: 0xfd,
        status_register: 0x00,
        ..Default::default()
    };

    let mut stub_bus = StubInterface6502 {
        read: |address, read_count| match address {
            0x00ff => 0x0f,
            _ => panic!("Unintended Address Accessed: 0x{:X}", address),
        },
        write: |address, data, write_count| {
            panic! {"Write function was called"}
        }, ..Default::default()
    };

    let mut cpu_expected = MOS6502 {
        accumulator: 0x00,
        ..cpu_initial.clone()
    };
    cpu_expected.set_flag(StatusFlag::Zero, true);

    and(&mut cpu_initial, &mut stub_bus, AddressModeValue::AbsoluteAddress(0x00ff));

    assert_eq!(cpu_initial, cpu_expected);
}

#[test]
fn mod_test_asl() {
    let mut cpu_initial = MOS6502 {
        accumulator: 0x00,
        x_register: 0x00,
        y_register: 0x00,
        program_counter: 0x0000,
        stack_pointer: 0xfd,
        status_register: 0x00,
        ..Default::default()
    };

    let mut stub_bus = StubInterface6502 {
        read: |address, read_count| match address {
            0x00ff => 0x4f,
            _ => panic!("Unintended Address Accessed: 0x{:X}", address),
        },
        write: |address, data, write_count| {
            assert_eq!(address, 0x00ff);
            assert_eq!(data, 0x4f << 1);
        }, ..Default::default()
    };

    let mut cpu_expected = MOS6502 { ..cpu_initial.clone() };
    cpu_expected.set_flag(StatusFlag::Negative, true);

    asl(&mut cpu_initial, &mut stub_bus, AddressModeValue::AbsoluteAddress(0x00ff));

    assert_eq!(cpu_initial, cpu_expected);
}

#[test]
fn mod_test_asl_accumulator_zero_flag() {
    let mut cpu_initial = MOS6502 {
        accumulator: 0x80,
        x_register: 0x00,
        y_register: 0x00,
        program_counter: 0x0000,
        stack_pointer: 0xfd,
        status_register: 0x00,
        ..Default::default()
    };

    let mut stub_bus = StubInterface6502 {
        read: |address, read_count| {
            panic! {"Read function was called"}
        },
        write: |address, data, write_count| {
            panic! {"Write function was called"}
        }, ..Default::default()
    };

    let mut cpu_expected = MOS6502 {
        accumulator: 0x00,
        ..cpu_initial.clone()
    };
    cpu_expected.set_flag(StatusFlag::Carry, true);
    cpu_expected.set_flag(StatusFlag::Zero, true);

    asl(&mut cpu_initial, &mut stub_bus, AddressModeValue::Implied);

    assert_eq!(cpu_initial, cpu_expected);
}

#[test]
fn mod_test_brk() {
    let mut cpu_initial = MOS6502 {
        accumulator: 0x80,
        x_register: 0x00,
        y_register: 0x00,
        program_counter: 0x4000,
        stack_pointer: 0xfd,
        status_register: 0x81,
        ..Default::default()
    };

    let mut stub_bus = StubInterface6502 {
        read: |address, read_count| match address {
            0xfffe => 0x01,
            0xffff => 0x80,
            _ => panic!("Unintended Address Accessed {:4X}", address),
        },
        write: |address, data, write_count| match address {
            0x01fd => assert_eq!(data, 0x40),
            0x01fc => assert_eq!(data, 0x01),
            0x01fb => assert_eq!(data, 0x81 | StatusFlag::Break.mask()),
            _ => panic!("Unintended Address Accessed {:4X}", address),
        }, ..Default::default()
    };

    let mut cpu_expected = MOS6502 {
        program_counter: 0x8001,
        stack_pointer: 0xfa,
        ..cpu_initial.clone()
    };
    cpu_expected.set_flag(StatusFlag::Break, true);
    cpu_expected.set_flag(StatusFlag::InterruptDisable, true);

    brk(&mut cpu_initial, &mut stub_bus, AddressModeValue::Implied);

    assert_eq!(cpu_initial, cpu_expected);
}

#[test]
fn mod_test_branch() {
    let mut cpu_initial = MOS6502 {
        accumulator: 0x00,
        x_register: 0x00,
        y_register: 0x00,
        program_counter: 0x00fb,
        stack_pointer: 0xfd,
        status_register: 0x00,
        ..Default::default()
    };

    let mut cpu_expected = MOS6502 {
        program_counter: 0x0100,
        remaining_cycles: 2,
        ..cpu_initial.clone()
    };

    branch(&mut cpu_initial, true, AddressModeValue::RelativeAddress(0x05));
    assert_eq!(cpu_initial, cpu_expected);
}

#[test]
fn mod_test_branch_backwards() {
    let mut cpu_initial = MOS6502 {
        accumulator: 0x00,
        x_register: 0x00,
        y_register: 0x00,
        program_counter: 0x000a,
        stack_pointer: 0xfd,
        status_register: 0x00,
        ..Default::default()
    };

    let mut cpu_expected = MOS6502 {
        program_counter: 0x0005,
        remaining_cycles: 1,
        ..cpu_initial.clone()
    };

    branch(&mut cpu_initial, true, AddressModeValue::RelativeAddress(0xfb));
    assert_eq!(cpu_initial, cpu_expected);
}

#[test]
fn mod_test_branch_fail() {
    let mut cpu_initial = MOS6502 {
        accumulator: 0x00,
        x_register: 0x00,
        y_register: 0x00,
        program_counter: 0x000a,
        stack_pointer: 0xfd,
        status_register: 0x00,
        ..Default::default()
    };

    let mut cpu_expected = MOS6502 { ..cpu_initial.clone() };

    branch(&mut cpu_initial, false, AddressModeValue::RelativeAddress(0xfb));
    assert_eq!(cpu_initial, cpu_expected);
}

#[test]
fn mod_test_bit() {
    let mut cpu_initial = MOS6502 {
        accumulator: 0xf0,
        x_register: 0x00,
        y_register: 0x00,
        program_counter: 0x000a,
        stack_pointer: 0xfd,
        status_register: 0x00,
        ..Default::default()
    };

    let mut stub_bus = StubInterface6502 {
        read: |address, read_count| match address {
            0x00ff => 0x0f,
            _ => panic!("Unintended Address Accessed: 0x{:X}", address),
        },
        write: |address, data, write_count| {
            panic! {"Write function was called"}
        }, ..Default::default()
    };

    let mut cpu_expected = MOS6502 { ..cpu_initial.clone() };
    cpu_expected.set_flag(StatusFlag::Zero, true);

    bit(&mut cpu_initial, &mut stub_bus, AddressModeValue::AbsoluteAddress(0x00ff));
    assert_eq!(cpu_initial, cpu_expected);
}

#[test]
fn mod_test_bit_negative_overflow_flags() {
    let mut cpu_initial = MOS6502 {
        accumulator: 0x0f,
        x_register: 0x00,
        y_register: 0x00,
        program_counter: 0x000a,
        stack_pointer: 0xfd,
        status_register: 0x00,
        ..Default::default()
    };

    let mut stub_bus = StubInterface6502 {
        read: |address, read_count| match address {
            0x00ff => 0xc0,
            _ => panic!("Unintended Address Accessed: 0x{:X}", address),
        },
        write: |address, data, write_count| {
            panic! {"Write function was called"}
        }, ..Default::default()
    };

    let mut cpu_expected = MOS6502 { ..cpu_initial.clone() };
    cpu_expected.set_flag(StatusFlag::Zero, true);
    cpu_expected.set_flag(StatusFlag::Negative, true);
    cpu_expected.set_flag(StatusFlag::Overflow, true);

    bit(&mut cpu_initial, &mut stub_bus, AddressModeValue::AbsoluteAddress(0x00ff));
    assert_eq!(cpu_initial, cpu_expected);
}

#[test]
fn mod_test_compare() {
    let mut cpu_initial = MOS6502 {
        accumulator: 0xff,
        x_register: 0x00,
        y_register: 0x00,
        program_counter: 0x0000,
        stack_pointer: 0xfd,
        status_register: 0x00,
        ..Default::default()
    };

    let mut stub_bus = StubInterface6502 {
        read: |address, read_count| match address {
            0x00ff => 0xff,
            _ => panic!("Unintended Address Accessed: 0x{:X}", address),
        },
        write: |address, data, write_count| {
            panic! {"Write function was called"}
        }, ..Default::default()
    };

    let mut cpu_expected = MOS6502 { ..cpu_initial.clone() };
    cpu_expected.set_flag(StatusFlag::Zero, true);
    cpu_expected.set_flag(StatusFlag::Carry, true);

    compare(&mut cpu_initial, &mut stub_bus, 0xff, AddressModeValue::AbsoluteAddress(0x00ff));
    assert_eq!(cpu_initial, cpu_expected);
}

#[test]
fn mod_test_compare_less() {
    let mut cpu_initial = MOS6502 {
        accumulator: 0x0f,
        x_register: 0x00,
        y_register: 0x00,
        program_counter: 0x0000,
        stack_pointer: 0xfd,
        status_register: 0x00,
        ..Default::default()
    };

    let mut stub_bus = StubInterface6502 {
        read: |address, read_count| match address {
            0x00ff => 0x10,
            _ => panic!("Unintended Address Accessed: 0x{:X}", address),
        },
        write: |address, data, write_count| {
            panic! {"Write function was called"}
        }, ..Default::default()
    };

    let mut cpu_expected = MOS6502 { ..cpu_initial.clone() };
    cpu_expected.set_flag(StatusFlag::Negative, true);

    compare(&mut cpu_initial, &mut stub_bus, 0x0f, AddressModeValue::AbsoluteAddress(0x00ff));
    assert_eq!(cpu_initial, cpu_expected);
}

#[test]
fn mod_test_dec() {
    let mut cpu_initial = MOS6502 {
        accumulator: 0x00,
        x_register: 0x00,
        y_register: 0x00,
        program_counter: 0x0000,
        stack_pointer: 0xfd,
        status_register: 0x00,
        ..Default::default()
    };

    let mut stub_bus = StubInterface6502 {
        read: |address, read_count| match address {
            0x00ff => 0x01,
            _ => panic!("Unintended Address Accessed: 0x{:X}", address),
        },
        write: |address, data, write_count| {
            assert_eq!(address, 0x00ff);
            assert_eq!(data, 0x00);
        }, ..Default::default()
    };

    let mut cpu_expected = MOS6502 { ..cpu_initial.clone() };
    cpu_expected.set_flag(StatusFlag::Zero, true);

    dec(&mut cpu_initial, &mut stub_bus, AddressModeValue::AbsoluteAddress(0x00ff));
    assert_eq!(cpu_initial, cpu_expected);
}

#[test]
fn mod_test_dec_negative() {
    let mut cpu_initial = MOS6502 {
        accumulator: 0x00,
        x_register: 0x00,
        y_register: 0x00,
        program_counter: 0x0000,
        stack_pointer: 0xfd,
        status_register: 0x00,
        ..Default::default()
    };

    let mut stub_bus = StubInterface6502 {
        read: |address, read_count| match address {
            0x00ff => 0x00,
            _ => panic!("Unintended Address Accessed: 0x{:X}", address),
        },
        write: |address, data, write_count| {
            assert_eq!(address, 0x00ff);
            assert_eq!(data, 0xff);
        }, ..Default::default()
    };

    let mut cpu_expected = MOS6502 { ..cpu_initial.clone() };
    cpu_expected.set_flag(StatusFlag::Negative, true);

    dec(&mut cpu_initial, &mut stub_bus, AddressModeValue::AbsoluteAddress(0x00ff));
    assert_eq!(cpu_initial, cpu_expected);
}

#[test]
fn mod_test_dex() {
    let mut cpu_initial = MOS6502 {
        accumulator: 0x00,
        x_register: 0x01,
        y_register: 0x00,
        program_counter: 0x0000,
        stack_pointer: 0xfd,
        status_register: 0x00,
        ..Default::default()
    };

    let mut stub_bus = StubInterface6502 {
        read: |address, read_count| {
            panic! {"Read function was called"}
        },
        write: |address, data, write_count| {
            panic! {"Write function was called"}
        }, ..Default::default()
    };

    let mut cpu_expected = MOS6502 {
        x_register: 0x00,
        ..cpu_initial.clone()
    };
    cpu_expected.set_flag(StatusFlag::Zero, true);

    dex(&mut cpu_initial, &mut stub_bus, AddressModeValue::Implied);
    assert_eq!(cpu_initial, cpu_expected);
}

#[test]
fn mod_test_dex_negative() {
    let mut cpu_initial = MOS6502 {
        accumulator: 0x00,
        x_register: 0x00,
        y_register: 0x00,
        program_counter: 0x0000,
        stack_pointer: 0xfd,
        status_register: 0x00,
        ..Default::default()
    };

    let mut stub_bus = StubInterface6502 {
        read: |address, read_count| {
            panic! {"Read function was called"}
        },
        write: |address, data, write_count| {
            panic! {"Write function was called"}
        }, ..Default::default()
    };

    let mut cpu_expected = MOS6502 {
        x_register: 0xff,
        ..cpu_initial.clone()
    };
    cpu_expected.set_flag(StatusFlag::Negative, true);

    dex(&mut cpu_initial, &mut stub_bus, AddressModeValue::Implied);
    assert_eq!(cpu_initial, cpu_expected);
}

#[test]
fn mod_test_dey() {
    let mut cpu_initial = MOS6502 {
        accumulator: 0x00,
        x_register: 0x00,
        y_register: 0x01,
        program_counter: 0x0000,
        stack_pointer: 0xfd,
        status_register: 0x00,
        ..Default::default()
    };

    let mut stub_bus = StubInterface6502 {
        read: |address, read_count| {
            panic! {"Read function was called"}
        },
        write: |address, data, write_count| {
            panic! {"Write function was called"}
        }, ..Default::default()
    };

    let mut cpu_expected = MOS6502 {
        y_register: 0x00,
        ..cpu_initial.clone()
    };
    cpu_expected.set_flag(StatusFlag::Zero, true);

    dey(&mut cpu_initial, &mut stub_bus, AddressModeValue::Implied);
    assert_eq!(cpu_initial, cpu_expected);
}

#[test]
fn mod_test_dey_negative() {
    let mut cpu_initial = MOS6502 {
        accumulator: 0x00,
        x_register: 0x00,
        y_register: 0x00,
        program_counter: 0x0000,
        stack_pointer: 0xfd,
        status_register: 0x00,
        ..Default::default()
    };

    let mut stub_bus = StubInterface6502 {
        read: |address, read_count| {
            panic! {"Read function was called"}
        },
        write: |address, data, write_count| {
            panic! {"Write function was called"}
        }, ..Default::default()
    };

    let mut cpu_expected = MOS6502 {
        y_register: 0xff,
        ..cpu_initial.clone()
    };
    cpu_expected.set_flag(StatusFlag::Negative, true);

    dey(&mut cpu_initial, &mut stub_bus, AddressModeValue::Implied);
    assert_eq!(cpu_initial, cpu_expected);
}

#[test]
fn mod_test_eor() {
    let mut cpu_initial = MOS6502 {
        accumulator: 0x10,
        x_register: 0x00,
        y_register: 0x00,
        program_counter: 0x0000,
        stack_pointer: 0xfd,
        status_register: 0x00,
        ..Default::default()
    };

    let mut stub_bus = StubInterface6502 {
        read: |address, read_count| match address {
            0x00ff => 0x80,
            _ => panic!("Unintended Address Accessed: 0x{:X}", address),
        },
        write: |address, data, write_count| {
            panic! {"Write function was called"}
        }, ..Default::default()
    };

    let mut cpu_expected = MOS6502 {
        accumulator: 0x90,
        ..cpu_initial.clone()
    };
    cpu_expected.set_flag(StatusFlag::Negative, true);

    eor(&mut cpu_initial, &mut stub_bus, AddressModeValue::AbsoluteAddress(0x00ff));

    assert_eq!(cpu_initial, cpu_expected);
}

#[test]
fn mod_test_eor_zero_flag() {
    let mut cpu_initial = MOS6502 {
        accumulator: 0xff,
        x_register: 0x00,
        y_register: 0x00,
        program_counter: 0x0000,
        stack_pointer: 0xfd,
        status_register: 0x00,
        ..Default::default()
    };

    let mut stub_bus = StubInterface6502 {
        read: |address, read_count| match address {
            0x00ff => 0xff,
            _ => panic!("Unintended Address Accessed: 0x{:X}", address),
        },
        write: |address, data, write_count| {
            panic! {"Write function was called"}
        }, ..Default::default()
    };

    let mut cpu_expected = MOS6502 {
        accumulator: 0x00,
        ..cpu_initial.clone()
    };
    cpu_expected.set_flag(StatusFlag::Zero, true);

    eor(&mut cpu_initial, &mut stub_bus, AddressModeValue::AbsoluteAddress(0x00ff));
    assert_eq!(cpu_initial, cpu_expected);
}

#[test]
fn mod_test_inc() {
    let mut cpu_initial = MOS6502 {
        accumulator: 0x00,
        x_register: 0x00,
        y_register: 0x00,
        program_counter: 0x0000,
        stack_pointer: 0xfd,
        status_register: 0x00,
        ..Default::default()
    };

    let mut stub_bus = StubInterface6502 {
        read: |address, read_count| match address {
            0x00ff => 0xff,
            _ => panic!("Unintended Address Accessed: 0x{:X}", address),
        },
        write: |address, data, write_count| {
            assert_eq!(address, 0x00ff);
            assert_eq!(data, 0x00);
        }, ..Default::default()
    };

    let mut cpu_expected = MOS6502 { ..cpu_initial.clone() };
    cpu_expected.set_flag(StatusFlag::Zero, true);

    inc(&mut cpu_initial, &mut stub_bus, AddressModeValue::AbsoluteAddress(0x00ff));
    assert_eq!(cpu_initial, cpu_expected);
}

#[test]
fn mod_test_inc_negative() {
    let mut cpu_initial = MOS6502 {
        accumulator: 0x00,
        x_register: 0x00,
        y_register: 0x00,
        program_counter: 0x0000,
        stack_pointer: 0xfd,
        status_register: 0x00,
        ..Default::default()
    };

    let mut stub_bus = StubInterface6502 {
        read: |address, read_count| match address {
            0x00ff => 0x7f,
            _ => panic!("Unintended Address Accessed: 0x{:X}", address),
        },
        write: |address, data, write_count| {
            assert_eq!(address, 0x00ff);
            assert_eq!(data, 0x80);
        }, ..Default::default()
    };

    let mut cpu_expected = MOS6502 { ..cpu_initial.clone() };
    cpu_expected.set_flag(StatusFlag::Negative, true);

    inc(&mut cpu_initial, &mut stub_bus, AddressModeValue::AbsoluteAddress(0x00ff));
    assert_eq!(cpu_initial, cpu_expected);
}

#[test]
fn mod_test_inx() {
    let mut cpu_initial = MOS6502 {
        accumulator: 0x00,
        x_register: 0xff,
        y_register: 0x00,
        program_counter: 0x0000,
        stack_pointer: 0xfd,
        status_register: 0x00,
        ..Default::default()
    };

    let mut stub_bus = StubInterface6502 {
        read: |address, read_count| {
            panic! {"Read function was called"}
        },
        write: |address, data, write_count| {
            panic! {"Write function was called"}
        }, ..Default::default()
    };

    let mut cpu_expected = MOS6502 {
        x_register: 0x00,
        ..cpu_initial.clone()
    };
    cpu_expected.set_flag(StatusFlag::Zero, true);

    inx(&mut cpu_initial, &mut stub_bus, AddressModeValue::Implied);
    assert_eq!(cpu_initial, cpu_expected);
}

#[test]
fn mod_test_inx_negative() {
    let mut cpu_initial = MOS6502 {
        accumulator: 0x00,
        x_register: 0x7f,
        y_register: 0x00,
        program_counter: 0x0000,
        stack_pointer: 0xfd,
        status_register: 0x00,
        ..Default::default()
    };

    let mut stub_bus = StubInterface6502 {
        read: |address, read_count| {
            panic! {"Read function was called"}
        },
        write: |address, data, write_count| {
            panic! {"Write function was called"}
        }, ..Default::default()
    };

    let mut cpu_expected = MOS6502 {
        x_register: 0x80,
        ..cpu_initial.clone()
    };
    cpu_expected.set_flag(StatusFlag::Negative, true);

    inx(&mut cpu_initial, &mut stub_bus, AddressModeValue::Implied);
    assert_eq!(cpu_initial, cpu_expected);
}

#[test]
fn mod_test_iny() {
    let mut cpu_initial = MOS6502 {
        accumulator: 0x00,
        x_register: 0x00,
        y_register: 0xff,
        program_counter: 0x0000,
        stack_pointer: 0xfd,
        status_register: 0x00,
        ..Default::default()
    };

    let mut stub_bus = StubInterface6502 {
        read: |address, read_count| {
            panic! {"Read function was called"}
        },
        write: |address, data, write_count| {
            panic! {"Write function was called"}
        }, ..Default::default()
    };

    let mut cpu_expected = MOS6502 {
        y_register: 0x00,
        ..cpu_initial.clone()
    };
    cpu_expected.set_flag(StatusFlag::Zero, true);

    iny(&mut cpu_initial, &mut stub_bus, AddressModeValue::Implied);
    assert_eq!(cpu_initial, cpu_expected);
}

#[test]
fn mod_test_iny_negative() {
    let mut cpu_initial = MOS6502 {
        accumulator: 0x00,
        x_register: 0x00,
        y_register: 0x7f,
        program_counter: 0x0000,
        stack_pointer: 0xfd,
        status_register: 0x00,
        ..Default::default()
    };

    let mut stub_bus = StubInterface6502 {
        read: |address, read_count| {
            panic! {"Read function was called"}
        },
        write: |address, data, write_count| {
            panic! {"Write function was called"}
        }, ..Default::default()
    };

    let mut cpu_expected = MOS6502 {
        y_register: 0x80,
        ..cpu_initial.clone()
    };
    cpu_expected.set_flag(StatusFlag::Negative, true);

    iny(&mut cpu_initial, &mut stub_bus, AddressModeValue::Implied);
    assert_eq!(cpu_initial, cpu_expected);
}

#[test]
fn mod_test_jmp() {
    let mut cpu_initial = MOS6502 {
        accumulator: 0x00,
        x_register: 0x00,
        y_register: 0x00,
        program_counter: 0x0000,
        stack_pointer: 0xfd,
        status_register: 0x00,
        ..Default::default()
    };

    let mut stub_bus = StubInterface6502 {
        read: |address, read_count| {
            panic! {"Read function was called"}
        },
        write: |address, data, write_count| {
            panic! {"Write function was called"}
        }, ..Default::default()
    };

    let cpu_expected = MOS6502 {
        program_counter: 0x00ff,
        ..cpu_initial.clone()
    };

    jmp(&mut cpu_initial, &mut stub_bus, AddressModeValue::AbsoluteAddress(0x00ff));
    assert_eq!(cpu_initial, cpu_expected);
}

#[test]
fn mod_test_jsr() {
    let mut cpu_initial = MOS6502 {
        accumulator: 0x00,
        x_register: 0x00,
        y_register: 0x00,
        program_counter: 0x00bb,
        stack_pointer: 0xfd,
        status_register: 0x00,
        ..Default::default()
    };

    let mut stub_bus = StubInterface6502 {
        read: |address, read_count| {
            panic! {"Read function was called"}
        },
        write: |address, data, write_count| match address {
            0x01fd => assert_eq!(data, 0x00),
            0x01fc => assert_eq!(data, 0xba),
            _ => panic!("Unintended Address Accessed: 0x{:X}", address),
        }, ..Default::default()
    };

    let cpu_expected = MOS6502 {
        program_counter: 0x00ff,
        stack_pointer: 0xfb,
        ..cpu_initial.clone()
    };

    jsr(&mut cpu_initial, &mut stub_bus, AddressModeValue::AbsoluteAddress(0x00ff));
    assert_eq!(cpu_initial, cpu_expected);
}

#[test]
fn mod_test_lda() {
    let mut cpu_initial = MOS6502 {
        accumulator: 0x00,
        x_register: 0x00,
        y_register: 0x00,
        program_counter: 0x0000,
        stack_pointer: 0xfd,
        status_register: 0x00,
        ..Default::default()
    };

    let mut stub_bus = StubInterface6502 {
        read: |address, read_count| 0xff,
        write: |address, data, write_count| {
            panic! {"Write function was called"}
        }, ..Default::default()
    };

    let mut cpu_expected = MOS6502 {
        accumulator: 0xff,
        ..cpu_initial.clone()
    };
    cpu_expected.set_flag(StatusFlag::Negative, true);

    lda(&mut cpu_initial, &mut stub_bus, AddressModeValue::AbsoluteAddress(0x00ff));
    assert_eq!(cpu_initial, cpu_expected);
}

#[test]
fn mod_test_lda_negative() {
    let mut cpu_initial = MOS6502 {
        accumulator: 0xff,
        x_register: 0x00,
        y_register: 0x00,
        program_counter: 0x0000,
        stack_pointer: 0xfd,
        status_register: 0x00,
        ..Default::default()
    };

    let mut stub_bus = StubInterface6502 {
        read: |address, read_count| 0x00,
        write: |address, data, write_count| {
            panic! {"Write function was called"}
        }, ..Default::default()
    };

    let mut cpu_expected = MOS6502 {
        accumulator: 0x00,
        ..cpu_initial.clone()
    };
    cpu_expected.set_flag(StatusFlag::Zero, true);

    lda(&mut cpu_initial, &mut stub_bus, AddressModeValue::AbsoluteAddress(0x00ff));
    assert_eq!(cpu_initial, cpu_expected);
}

#[test]
fn mod_test_ldx() {
    let mut cpu_initial = MOS6502 {
        accumulator: 0x00,
        x_register: 0x00,
        y_register: 0x00,
        program_counter: 0x0000,
        stack_pointer: 0xfd,
        status_register: 0x00,
        ..Default::default()
    };

    let mut stub_bus = StubInterface6502 {
        read: |address, read_count| 0xff,
        write: |address, data, write_count| {
            panic! {"Write function was called"}
        }, ..Default::default()
    };

    let mut cpu_expected = MOS6502 {
        x_register: 0xff,
        ..cpu_initial.clone()
    };
    cpu_expected.set_flag(StatusFlag::Negative, true);

    ldx(&mut cpu_initial, &mut stub_bus, AddressModeValue::AbsoluteAddress(0x00ff));
    assert_eq!(cpu_initial, cpu_expected);
}

#[test]
fn mod_test_ldx_negative() {
    let mut cpu_initial = MOS6502 {
        accumulator: 0x00,
        x_register: 0xff,
        y_register: 0x00,
        program_counter: 0x0000,
        stack_pointer: 0xfd,
        status_register: 0x00,
        ..Default::default()
    };

    let mut stub_bus = StubInterface6502 {
        read: |address, read_count| 0x00,
        write: |address, data, write_count| {
            panic! {"Write function was called"}
        }, ..Default::default()
    };

    let mut cpu_expected = MOS6502 {
        x_register: 0x00,
        ..cpu_initial.clone()
    };
    cpu_expected.set_flag(StatusFlag::Zero, true);

    ldx(&mut cpu_initial, &mut stub_bus, AddressModeValue::AbsoluteAddress(0x00ff));
    assert_eq!(cpu_initial, cpu_expected);
}

#[test]
fn mod_test_ldy() {
    let mut cpu_initial = MOS6502 {
        accumulator: 0x00,
        x_register: 0x00,
        y_register: 0x00,
        program_counter: 0x0000,
        stack_pointer: 0xfd,
        status_register: 0x00,
        ..Default::default()
    };

    let mut stub_bus = StubInterface6502 {
        read: |address, read_count| 0xff,
        write: |address, data, write_count| {
            panic! {"Write function was called"}
        }, ..Default::default()
    };

    let mut cpu_expected = MOS6502 {
        y_register: 0xff,
        ..cpu_initial.clone()
    };
    cpu_expected.set_flag(StatusFlag::Negative, true);

    ldy(&mut cpu_initial, &mut stub_bus, AddressModeValue::AbsoluteAddress(0x00ff));
    assert_eq!(cpu_initial, cpu_expected);
}

#[test]
fn mod_test_ldy_negative() {
    let mut cpu_initial = MOS6502 {
        accumulator: 0x00,
        x_register: 0x00,
        y_register: 0xff,
        program_counter: 0x0000,
        stack_pointer: 0xfd,
        status_register: 0x00,
        ..Default::default()
    };

    let mut stub_bus = StubInterface6502 {
        read: |address, read_count| 0x00,
        write: |address, data, write_count| {
            panic! {"Write function was called"}
        }, ..Default::default()
    };

    let mut cpu_expected = MOS6502 {
        y_register: 0x00,
        ..cpu_initial.clone()
    };
    cpu_expected.set_flag(StatusFlag::Zero, true);

    ldy(&mut cpu_initial, &mut stub_bus, AddressModeValue::AbsoluteAddress(0x00ff));
    assert_eq!(cpu_initial, cpu_expected);
}

#[test]
fn mod_test_lsr() {
    let mut cpu_initial = MOS6502 {
        accumulator: 0x00,
        x_register: 0x00,
        y_register: 0x00,
        program_counter: 0x0000,
        stack_pointer: 0xfd,
        status_register: 0x00,
        ..Default::default()
    };

    let mut stub_bus = StubInterface6502 {
        read: |address, read_count| match address {
            0x00ff => 0xff,
            _ => panic!("Unintended Address Accessed: 0x{:X}", address),
        },
        write: |address, data, write_count| {
            assert_eq!(address, 0x00ff);
            assert_eq!(data, 0xff >> 1);
        }, ..Default::default()
    };

    let mut cpu_expected = MOS6502 { ..cpu_initial.clone() };
    cpu_expected.set_flag(StatusFlag::Carry, true);

    lsr(&mut cpu_initial, &mut stub_bus, AddressModeValue::AbsoluteAddress(0x00ff));

    assert_eq!(cpu_initial, cpu_expected);
}

#[test]
fn mod_test_lsr_accumulator_zero_flag() {
    let mut cpu_initial = MOS6502 {
        accumulator: 0x01,
        x_register: 0x00,
        y_register: 0x00,
        program_counter: 0x0000,
        stack_pointer: 0xfd,
        status_register: 0x00,
        ..Default::default()
    };

    let mut stub_bus = StubInterface6502 {
        read: |address, read_count| {
            panic! {"Read function was called"}
        },
        write: |address, data, write_count| {
            panic! {"Write function was called"}
        }, ..Default::default()
    };

    let mut cpu_expected = MOS6502 {
        accumulator: 0x00,
        ..cpu_initial.clone()
    };
    cpu_expected.set_flag(StatusFlag::Zero, true);
    cpu_expected.set_flag(StatusFlag::Carry, true);

    lsr(&mut cpu_initial, &mut stub_bus, AddressModeValue::Implied);

    assert_eq!(cpu_initial, cpu_expected);
}

#[test]
fn mod_test_ora() {
    let mut cpu_initial = MOS6502 {
        accumulator: 0x10,
        x_register: 0x00,
        y_register: 0x00,
        program_counter: 0x0000,
        stack_pointer: 0xfd,
        status_register: 0x00,
        ..Default::default()
    };

    let mut stub_bus = StubInterface6502 {
        read: |address, read_count| match address {
            0x00ff => 0x80,
            _ => panic!("Unintended Address Accessed: 0x{:X}", address),
        },
        write: |address, data, write_count| {
            panic! {"Write function was called"}
        }, ..Default::default()
    };

    let mut cpu_expected = MOS6502 {
        accumulator: 0x90,
        ..cpu_initial.clone()
    };
    cpu_expected.set_flag(StatusFlag::Negative, true);

    ora(&mut cpu_initial, &mut stub_bus, AddressModeValue::AbsoluteAddress(0x00ff));

    assert_eq!(cpu_initial, cpu_expected);
}

#[test]
fn mod_test_ora_zero_flag() {
    let mut cpu_initial = MOS6502 {
        accumulator: 0x00,
        x_register: 0x00,
        y_register: 0x00,
        program_counter: 0x0000,
        stack_pointer: 0xfd,
        status_register: 0x00,
        ..Default::default()
    };

    let mut stub_bus = StubInterface6502 {
        read: |address, read_count| match address {
            0x00ff => 0x00,
            _ => panic!("Unintended Address Accessed: 0x{:X}", address),
        },
        write: |address, data, write_count| {
            panic! {"Write function was called"}
        }, ..Default::default()
    };

    let mut cpu_expected = MOS6502 {
        accumulator: 0x00,
        ..cpu_initial.clone()
    };
    cpu_expected.set_flag(StatusFlag::Zero, true);

    ora(&mut cpu_initial, &mut stub_bus, AddressModeValue::AbsoluteAddress(0x00ff));
    assert_eq!(cpu_initial, cpu_expected);
}

#[test]
fn mod_test_pha() {
    let mut cpu_initial = MOS6502 {
        accumulator: 0x10,
        x_register: 0x00,
        y_register: 0x00,
        program_counter: 0x0000,
        stack_pointer: 0xfd,
        status_register: 0x00,
        ..Default::default()
    };

    let mut stub_bus = StubInterface6502 {
        read: |address, read_count| {
            panic! {"Read function was called"}
        },
        write: |address, data, write_count| match address {
            0x01fd => assert_eq!(data, 0x10),
            _ => panic!("Unintended Address Accessed: 0x{:X}", address),
        }, ..Default::default()
    };

    let cpu_expected = MOS6502 {
        stack_pointer: 0xfc,
        ..cpu_initial.clone()
    };

    pha(&mut cpu_initial, &mut stub_bus, AddressModeValue::Implied);

    assert_eq!(cpu_initial, cpu_expected);
}

#[test]
fn mod_test_php() {
    let mut cpu_initial = MOS6502 {
        accumulator: 0x10,
        x_register: 0x00,
        y_register: 0x00,
        program_counter: 0x0000,
        stack_pointer: 0xfd,
        status_register: 0x00,
        ..Default::default()
    };

    let mut stub_bus = StubInterface6502 {
        read: |address, read_count| {
            panic! {"Read function was called"}
        },
        write: |address, data, write_count| match address {
            0x01fd => assert_eq!(data, StatusFlag::Break.mask()),
            _ => panic!("Unintended Address Accessed: 0x{:X}", address),
        }, ..Default::default()
    };

    let mut cpu_expected = MOS6502 {
        stack_pointer: 0xfc,
        ..cpu_initial.clone()
    };
    //cpu_expected.set_flag(StatusFlag::Break, true);

    php(&mut cpu_initial, &mut stub_bus, AddressModeValue::Implied);

    assert_eq!(cpu_initial, cpu_expected);
}

#[test]
fn mod_test_pla() {
    let mut cpu_initial = MOS6502 {
        accumulator: 0x10,
        x_register: 0x00,
        y_register: 0x00,
        program_counter: 0x0000,
        stack_pointer: 0xfc,
        status_register: 0x00,
        ..Default::default()
    };

    let mut stub_bus = StubInterface6502 {
        read: |address, read_count| match address {
            0x01fd => 0xff,
            _ => panic!("Unintended Address Accessed: 0x{:X}", address),
        },
        write: |address, data, write_count| {
            panic! {"Write function was called"}
        }, ..Default::default()
    };

    let cpu_expected = MOS6502 {
        accumulator: 0xff,
        stack_pointer: 0xfd,
        status_register: 0x80,
        ..cpu_initial.clone()
    };

    pla(&mut cpu_initial, &mut stub_bus, AddressModeValue::Implied);

    assert_eq!(cpu_initial, cpu_expected);
}

#[test]
fn mod_test_plp() {
    let mut cpu_initial = MOS6502 {
        accumulator: 0x10,
        x_register: 0x00,
        y_register: 0x00,
        program_counter: 0x0000,
        stack_pointer: 0xfc,
        status_register: 0x24,
        ..Default::default()
    };

    let mut stub_bus = StubInterface6502 {
        read: |address, read_count| match address {
            0x01fd => 0xb1,
            _ => panic!("Unintended Address Accessed: 0x{:X}", address),
        },
        write: |address, data, write_count| {
            panic! {"Write function was called"}
        }, ..Default::default()
    };

    let cpu_expected = MOS6502 {
        status_register: 0xa1,
        stack_pointer: 0xfd,
        ..cpu_initial.clone()
    };

    plp(&mut cpu_initial, &mut stub_bus, AddressModeValue::Implied);

    assert_eq!(cpu_initial, cpu_expected);
}

#[test]
fn mod_test_rol() {
    let mut cpu_initial = MOS6502 {
        accumulator: 0x00,
        x_register: 0x00,
        y_register: 0x00,
        program_counter: 0x0000,
        stack_pointer: 0xfd,
        status_register: 0x00,
        ..Default::default()
    };
    cpu_initial.set_flag(StatusFlag::Carry, true);

    let mut stub_bus = StubInterface6502 {
        read: |address, read_count| match address {
            0x00ff => 0x41,
            _ => panic!("Unintended Address Accessed: 0x{:X}", address),
        },
        write: |address, data, write_count| {
            assert_eq!(address, 0x00ff);
            assert_eq!(data, 0x83);
        }, ..Default::default()
    };

    let mut cpu_expected = MOS6502 { ..cpu_initial.clone() };
    cpu_expected.set_flag(StatusFlag::Negative, true);
    cpu_expected.set_flag(StatusFlag::Carry, false);

    rol(&mut cpu_initial, &mut stub_bus, AddressModeValue::AbsoluteAddress(0x00ff));

    assert_eq!(cpu_initial, cpu_expected);
}

#[test]
fn mod_test_rol_accumulator() {
    let mut cpu_initial = MOS6502 {
        accumulator: 0x80,
        x_register: 0x00,
        y_register: 0x00,
        program_counter: 0x0000,
        stack_pointer: 0xfd,
        status_register: 0x00,
        ..Default::default()
    };

    let mut stub_bus = StubInterface6502 {
        read: |address, read_count| {
            panic! {"Read function was called"}
        },
        write: |address, data, write_count| {
            panic! {"Write function was called"}
        }, ..Default::default()
    };

    let mut cpu_expected = MOS6502 {
        accumulator: 0x00,
        ..cpu_initial.clone()
    };
    cpu_expected.set_flag(StatusFlag::Zero, true);
    cpu_expected.set_flag(StatusFlag::Carry, true);

    rol(&mut cpu_initial, &mut stub_bus, AddressModeValue::Implied);

    assert_eq!(cpu_initial, cpu_expected);
}

#[test]
fn mod_test_ror() {
    let mut cpu_initial = MOS6502 {
        accumulator: 0x00,
        x_register: 0x00,
        y_register: 0x00,
        program_counter: 0x0000,
        stack_pointer: 0xfd,
        status_register: 0x00,
        ..Default::default()
    };
    cpu_initial.set_flag(StatusFlag::Carry, true);

    let mut stub_bus = StubInterface6502 {
        read: |address, read_count| match address {
            0x00ff => 0x02,
            _ => panic!("Unintended Address Accessed: 0x{:X}", address),
        },
        write: |address, data, write_count| {
            assert_eq!(address, 0x00ff);
            assert_eq!(data, 0x81);
        }, ..Default::default()
    };

    let mut cpu_expected = MOS6502 { ..cpu_initial.clone() };
    cpu_expected.set_flag(StatusFlag::Negative, true);
    cpu_expected.set_flag(StatusFlag::Carry, false);

    ror(&mut cpu_initial, &mut stub_bus, AddressModeValue::AbsoluteAddress(0x00ff));

    assert_eq!(cpu_initial, cpu_expected);
}

#[test]
fn mod_test_ror_accumulator() {
    let mut cpu_initial = MOS6502 {
        accumulator: 0x01,
        x_register: 0x00,
        y_register: 0x00,
        program_counter: 0x0000,
        stack_pointer: 0xfd,
        status_register: 0x00,
        ..Default::default()
    };

    let mut stub_bus = StubInterface6502 {
        read: |address, read_count| {
            panic! {"Read function was called"}
        },
        write: |address, data, write_count| {
            panic! {"Write function was called"}
        }, ..Default::default()
    };

    let mut cpu_expected = MOS6502 {
        accumulator: 0x00,
        ..cpu_initial.clone()
    };
    cpu_expected.set_flag(StatusFlag::Zero, true);
    cpu_expected.set_flag(StatusFlag::Carry, true);

    ror(&mut cpu_initial, &mut stub_bus, AddressModeValue::Implied);

    assert_eq!(cpu_initial, cpu_expected);
}

#[test]
fn mod_test_rti() {
    let mut cpu_initial = MOS6502 {
        accumulator: 0x01,
        x_register: 0x00,
        y_register: 0x00,
        program_counter: 0x0000,
        stack_pointer: 0xfa,
        status_register: 0x20,
        ..Default::default()
    };

    let mut stub_bus = StubInterface6502 {
        read: |address, read_count| match address {
            0x01fb => 0xf1,
            0x01fc => 0x01,
            0x01fd => 0x40,
            _ => panic!("Unintended Address Accessed: {:4X}", address),
        },
        write: |address, data, write_count| {
            panic! {"Write function was called"}
        }, ..Default::default()
    };

    let cpu_expected = MOS6502 {
        program_counter: 0x4001,
        status_register: 0xe1,
        stack_pointer: 0xfd,
        ..cpu_initial.clone()
    };

    rti(&mut cpu_initial, &mut stub_bus, AddressModeValue::Implied);

    assert_eq!(cpu_initial, cpu_expected);
}

#[test]
fn mod_test_rts() {
    let mut cpu_initial = MOS6502 {
        accumulator: 0x00,
        x_register: 0x00,
        y_register: 0x00,
        program_counter: 0x00bb,
        stack_pointer: 0xfb,
        status_register: 0x00,
        ..Default::default()
    };

    let mut stub_bus = StubInterface6502 {
        read: |address, read_count| match address {
            0x01fc => 0x00,
            0x01fd => 0x10,
            _ => panic!("Unintended Address Accessed: 0x{:X}", address),
        },
        write: |address, data, write_count| {
            panic! {"Write function was called"}
        }, ..Default::default()
    };

    let cpu_expected = MOS6502 {
        program_counter: 0x1001,
        stack_pointer: 0xfd,
        ..cpu_initial.clone()
    };

    rts(&mut cpu_initial, &mut stub_bus, AddressModeValue::Implied);
    assert_eq!(cpu_initial, cpu_expected);
}

#[test]
fn mod_test_sbc() {
    let mut cpu_initial = MOS6502 {
        accumulator: 0x10,
        x_register: 0x00,
        y_register: 0x00,
        program_counter: 0x0000,
        stack_pointer: 0xfd,
        status_register: 0x00,
        ..Default::default()
    };
    cpu_initial.set_flag(StatusFlag::Carry, true);

    let mut stub_bus = StubInterface6502 {
        read: |address, read_count| 0x08,
        write: |address, data, write_count| {
            panic! {"Write function was called"}
        }, ..Default::default()
    };

    let cpu_expected = MOS6502 {
        accumulator: 0x08,
        ..cpu_initial.clone()
    };

    sbc(&mut cpu_initial, &mut stub_bus, AddressModeValue::AbsoluteAddress(0x00ff));
    assert_eq!(cpu_initial, cpu_expected);
}

#[test]
fn mod_test_sbc_overflow() {
    let mut cpu_initial = MOS6502 {
        accumulator: 0x81,
        x_register: 0x00,
        y_register: 0x00,
        program_counter: 0x0000,
        stack_pointer: 0xfd,
        status_register: 0x00,
        ..Default::default()
    };
    cpu_initial.set_flag(StatusFlag::Carry, true);

    let mut stub_bus = StubInterface6502 {
        read: |address, read_count| 0x02,
        write: |address, data, write_count| {
            panic! {"Write function was called"}
        }, ..Default::default()
    };

    let mut cpu_expected = MOS6502 {
        accumulator: 0x7f,
        ..cpu_initial.clone()
    };
    cpu_expected.set_flag(StatusFlag::Overflow, true);

    sbc(&mut cpu_initial, &mut stub_bus, AddressModeValue::AbsoluteAddress(0x00ff));
    assert_eq!(cpu_initial, cpu_expected);
}

#[test]
fn mod_test_sbc_zero() {
    let mut cpu_initial = MOS6502 {
        accumulator: 0x10,
        x_register: 0x00,
        y_register: 0x00,
        program_counter: 0x0000,
        stack_pointer: 0xfd,
        status_register: 0x00,
        ..Default::default()
    };
    cpu_initial.set_flag(StatusFlag::Carry, true);

    let mut stub_bus = StubInterface6502 {
        read: |address, read_count| 0x10,
        write: |address, data, write_count| {
            panic! {"Write function was called"}
        }, ..Default::default()
    };

    let mut cpu_expected = MOS6502 {
        accumulator: 0x00,
        ..cpu_initial.clone()
    };
    cpu_expected.set_flag(StatusFlag::Zero, true);

    sbc(&mut cpu_initial, &mut stub_bus, AddressModeValue::AbsoluteAddress(0x00ff));
    assert_eq!(cpu_initial, cpu_expected);
}

#[test]
fn mod_test_sbc_carry_negative() {
    let mut cpu_initial = MOS6502 {
        accumulator: 0x10,
        x_register: 0x00,
        y_register: 0x00,
        program_counter: 0x0000,
        stack_pointer: 0xfd,
        status_register: 0x00,
        ..Default::default()
    };
    cpu_initial.set_flag(StatusFlag::Carry, true);

    let mut stub_bus = StubInterface6502 {
        read: |address, read_count| 0x11,
        write: |address, data, write_count| {
            panic! {"Write function was called"}
        }, ..Default::default()
    };

    let mut cpu_expected = MOS6502 {
        accumulator: 0xff,
        ..cpu_initial.clone()
    };
    cpu_expected.set_flag(StatusFlag::Carry, false);
    cpu_expected.set_flag(StatusFlag::Negative, true);

    sbc(&mut cpu_initial, &mut stub_bus, AddressModeValue::AbsoluteAddress(0x00ff));
    assert_eq!(cpu_initial, cpu_expected);
}

#[test]
fn mod_test_sbc_decimal() {
    let mut cpu_initial = MOS6502 {
        decimal_mode_enabled: true,
        accumulator: 0x12,
        x_register: 0x00,
        y_register: 0x00,
        program_counter: 0x0000,
        stack_pointer: 0xfd,
        status_register: 0x00,
        ..Default::default()
    };
    cpu_initial.set_flag(StatusFlag::Decimal, true);
    cpu_initial.set_flag(StatusFlag::Carry, true);

    let mut stub_bus = StubInterface6502 {
        read: |address, read_count| 0x06,
        write: |address, data, write_count| {
            panic! {"Write function was called"}
        }, ..Default::default()
    };

    let cpu_expected = MOS6502 {
        accumulator: 0x06,
        ..cpu_initial.clone()
    };

    sbc(&mut cpu_initial, &mut stub_bus, AddressModeValue::AbsoluteAddress(0x00ff));
    assert_eq!(cpu_initial, cpu_expected);
}

#[test]
fn mod_test_sbc_decimal_carry_negative() {
    let mut cpu_initial = MOS6502 {
        decimal_mode_enabled: true,
        accumulator: 0x12,
        x_register: 0x00,
        y_register: 0x00,
        program_counter: 0x0000,
        stack_pointer: 0xfd,
        status_register: 0x00,
        ..Default::default()
    };
    cpu_initial.set_flag(StatusFlag::Decimal, true);
    cpu_initial.set_flag(StatusFlag::Carry, true);

    let mut stub_bus = StubInterface6502 {
        read: |address, read_count| 0x18,
        write: |address, data, write_count| {
            panic! {"Write function was called"}
        }, ..Default::default()
    };

    let mut cpu_expected = MOS6502 {
        accumulator: 0x94,
        ..cpu_initial.clone()
    };
    cpu_expected.set_flag(StatusFlag::Carry, false);
    cpu_expected.set_flag(StatusFlag::Negative, true);

    sbc(&mut cpu_initial, &mut stub_bus, AddressModeValue::AbsoluteAddress(0x00ff));
    assert_eq!(cpu_initial, cpu_expected);
}

#[test]
fn mod_test_sta() {
    let mut cpu_initial = MOS6502 {
        accumulator: 0x01,
        x_register: 0x00,
        y_register: 0x00,
        program_counter: 0x0000,
        stack_pointer: 0xfd,
        status_register: 0x00,
        ..Default::default()
    };

    let mut stub_bus = StubInterface6502 {
        read: |address, read_count| {
            panic! {"Read function was called"}
        },
        write: |address, data, write_count| {
            assert_eq!(address, 0x00ff);
            assert_eq!(data, 0x01);
        }, ..Default::default()
    };

    let cpu_expected = MOS6502 { ..cpu_initial.clone() };

    sta(&mut cpu_initial, &mut stub_bus, AddressModeValue::AbsoluteAddress(0x00ff));

    assert_eq!(cpu_initial, cpu_expected);
}

#[test]
fn mod_test_stx() {
    let mut cpu_initial = MOS6502 {
        accumulator: 0x00,
        x_register: 0x01,
        y_register: 0x00,
        program_counter: 0x0000,
        stack_pointer: 0xfd,
        status_register: 0x00,
        ..Default::default()
    };

    let mut stub_bus = StubInterface6502 {
        read: |address, read_count| {
            panic! {"Read function was called"}
        },
        write: |address, data, write_count| {
            assert_eq!(address, 0x00ff);
            assert_eq!(data, 0x01);
        }, ..Default::default()
    };

    let cpu_expected = MOS6502 { ..cpu_initial.clone() };

    stx(&mut cpu_initial, &mut stub_bus, AddressModeValue::AbsoluteAddress(0x00ff));

    assert_eq!(cpu_initial, cpu_expected);
}

#[test]
fn mod_test_sty() {
    let mut cpu_initial = MOS6502 {
        accumulator: 0x00,
        x_register: 0x00,
        y_register: 0x01,
        program_counter: 0x0000,
        stack_pointer: 0xfd,
        status_register: 0x00,
        ..Default::default()
    };

    let mut stub_bus = StubInterface6502 {
        read: |address, read_count| {
            panic! {"Read function was called"}
        },
        write: |address, data, write_count| {
            assert_eq!(address, 0x00ff);
            assert_eq!(data, 0x01);
        }, ..Default::default()
    };

    let cpu_expected = MOS6502 { ..cpu_initial.clone() };

    sty(&mut cpu_initial, &mut stub_bus, AddressModeValue::AbsoluteAddress(0x00ff));

    assert_eq!(cpu_initial, cpu_expected);
}

#[test]
fn mod_test_tax() {
    let mut cpu_initial = MOS6502 {
        accumulator: 0x00,
        x_register: 0x01,
        y_register: 0x00,
        program_counter: 0x0000,
        stack_pointer: 0xfd,
        status_register: 0x00,
        ..Default::default()
    };

    let mut stub_bus = StubInterface6502 {
        read: |address, read_count| {
            panic! {"Read function was called"}
        },
        write: |address, data, write_count| {
            panic! {"Write function was called"}
        }, ..Default::default()
    };

    let mut cpu_expected = MOS6502 {
        x_register: 0x00,
        ..cpu_initial.clone()
    };
    cpu_expected.set_flag(StatusFlag::Zero, true);

    tax(&mut cpu_initial, &mut stub_bus, AddressModeValue::Implied);

    assert_eq!(cpu_initial, cpu_expected);
}

#[test]
fn mod_test_tay() {
    let mut cpu_initial = MOS6502 {
        accumulator: 0x00,
        x_register: 0x00,
        y_register: 0x01,
        program_counter: 0x0000,
        stack_pointer: 0xfd,
        status_register: 0x00,
        ..Default::default()
    };

    let mut stub_bus = StubInterface6502 {
        read: |address, read_count| {
            panic! {"Read function was called"}
        },
        write: |address, data, write_count| {
            panic! {"Write function was called"}
        }, ..Default::default()
    };

    let mut cpu_expected = MOS6502 {
        y_register: 0x00,
        ..cpu_initial.clone()
    };
    cpu_expected.set_flag(StatusFlag::Zero, true);

    tay(&mut cpu_initial, &mut stub_bus, AddressModeValue::Implied);

    assert_eq!(cpu_initial, cpu_expected);
}

#[test]
fn mod_test_tsx() {
    let mut cpu_initial = MOS6502 {
        accumulator: 0x00,
        x_register: 0x00,
        y_register: 0x00,
        program_counter: 0x0000,
        stack_pointer: 0xfd,
        status_register: 0x00,
        ..Default::default()
    };

    let mut stub_bus = StubInterface6502 {
        read: |address, read_count| {
            panic! {"Read function was called"}
        },
        write: |address, data, write_count| {
            panic! {"Write function was called"}
        }, ..Default::default()
    };

    let mut cpu_expected = MOS6502 {
        x_register: 0xfd,
        ..cpu_initial.clone()
    };
    cpu_expected.set_flag(StatusFlag::Negative, true);

    tsx(&mut cpu_initial, &mut stub_bus, AddressModeValue::Implied);

    assert_eq!(cpu_initial, cpu_expected);
}

#[test]
fn mod_test_txa() {
    let mut cpu_initial = MOS6502 {
        accumulator: 0x00,
        x_register: 0x80,
        y_register: 0x00,
        program_counter: 0x0000,
        stack_pointer: 0xfd,
        status_register: 0x00,
        ..Default::default()
    };

    let mut stub_bus = StubInterface6502 {
        read: |address, read_count| {
            panic! {"Read function was called"}
        },
        write: |address, data, write_count| {
            panic! {"Write function was called"}
        }, ..Default::default()
    };

    let mut cpu_expected = MOS6502 {
        accumulator: 0x80,
        ..cpu_initial.clone()
    };
    cpu_expected.set_flag(StatusFlag::Negative, true);

    txa(&mut cpu_initial, &mut stub_bus, AddressModeValue::Implied);

    assert_eq!(cpu_initial, cpu_expected);
}

#[test]
fn mod_test_txs() {
    let mut cpu_initial = MOS6502 {
        accumulator: 0x00,
        x_register: 0x00,
        y_register: 0x00,
        program_counter: 0x0000,
        stack_pointer: 0xfd,
        status_register: 0x00,
        ..Default::default()
    };

    let mut stub_bus = StubInterface6502 {
        read: |address, read_count| {
            panic! {"Read function was called"}
        },
        write: |address, data, write_count| {
            panic! {"Write function was called"}
        }, ..Default::default()
    };

    let cpu_expected = MOS6502 {
        stack_pointer: 0x00,
        ..cpu_initial.clone()
    };

    txs(&mut cpu_initial, &mut stub_bus, AddressModeValue::Implied);

    assert_eq!(cpu_initial, cpu_expected);
}

#[test]
fn mod_test_tya() {
    let mut cpu_initial = MOS6502 {
        accumulator: 0x00,
        x_register: 0x00,
        y_register: 0x01,
        program_counter: 0x0000,
        stack_pointer: 0xfd,
        status_register: 0x00,
        ..Default::default()
    };

    let mut stub_bus = StubInterface6502 {
        read: |address, read_count| {
            panic! {"Read function was called"}
        },
        write: |address, data, write_count| {
            panic! {"Write function was called"}
        }, ..Default::default()
    };

    let cpu_expected = MOS6502 {
        accumulator: 0x01,
        ..cpu_initial.clone()
    };

    tya(&mut cpu_initial, &mut stub_bus, AddressModeValue::Implied);

    assert_eq!(cpu_initial, cpu_expected);
}
