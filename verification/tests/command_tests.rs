use mpsse::command::{Command, CommandList, DataShiftOptions};
use mpsse::{
    BitDirection, ClockDirection, PinDirection, PinDirectionArray, PinRange, PinValue,
    PinValueArray,
};

#[test]
fn command_test() {
    let array: PinValueArray = 0b00110011u8.into();

    assert_eq!(
        array,
        PinValueArray([
            PinValue::High,
            PinValue::High,
            PinValue::Low,
            PinValue::Low,
            PinValue::High,
            PinValue::High,
            PinValue::Low,
            PinValue::Low,
        ])
    )
}

#[test]
fn command_test_pin_directions() {
    let array: PinDirectionArray = 0b00110011u8.into();

    assert_eq!(
        array,
        PinDirectionArray([
            PinDirection::Output,
            PinDirection::Output,
            PinDirection::Input,
            PinDirection::Input,
            PinDirection::Output,
            PinDirection::Output,
            PinDirection::Input,
            PinDirection::Input,
        ])
    )
}

#[test]
fn pin_values_to_byte() {
    let array = PinValueArray([
        PinValue::Low,
        PinValue::High,
        PinValue::Low,
        PinValue::Low,
        PinValue::Low,
        PinValue::Low,
        PinValue::Low,
        PinValue::High,
    ]);
    let byte: u8 = array.into();
    assert_eq!(byte, 0x82);
}

#[test]
fn pin_directions_to_byte() {
    let array = PinDirectionArray([
        PinDirection::Output,
        PinDirection::Input,
        PinDirection::Input,
        PinDirection::Input,
        PinDirection::Input,
        PinDirection::Input,
        PinDirection::Output,
        PinDirection::Input,
    ]);
    let byte: u8 = array.into();
    assert_eq!(byte, 0x41);
}

#[test]
fn pin_byte_roundtrip_all_values() {
    for b in 0..=255u8 {
        let values: PinValueArray = b.into();
        let back: u8 = values.into();
        assert_eq!(back, b);
        let directions: PinDirectionArray = b.into();
        let back: u8 = directions.into();
        assert_eq!(back, b);
    }
}

#[test]
fn pin_array_roundtrip() {
    let values = PinValueArray([
        PinValue::High,
        PinValue::Low,
        PinValue::High,
        PinValue::High,
        PinValue::Low,
        PinValue::Low,
        PinValue::High,
        PinValue::Low,
    ]);
    let byte: u8 = values.into();
    let back: PinValueArray = byte.into();
    assert_eq!(back, values);
}

#[test]
fn data_shift_options_opcode() {
    let rising_msb = DataShiftOptions {
        clock_direction: ClockDirection::Rising,
        bit_direction: BitDirection::MsbFirst,
    };
    let falling_lsb = DataShiftOptions {
        clock_direction: ClockDirection::Falling,
        bit_direction: BitDirection::LsbFirst,
    };
    assert_eq!(u8::from(rising_msb), 0x00);
    assert_eq!(u8::from(falling_lsb), 0x0C);
}

fn rising_msb() -> DataShiftOptions {
    DataShiftOptions {
        clock_direction: ClockDirection::Rising,
        bit_direction: BitDirection::MsbFirst,
    }
}

#[test]
fn bit_shift_commands() {
    let write = Command::WriteDataShiftBits {
        options: rising_msb(),
        bits: 0xA5,
        length: 8,
    };
    assert_eq!(write.to_bytes(), vec![0x12, 0x07, 0xA5]);
    let read = Command::ReadDataShiftBits {
        options: DataShiftOptions {
            clock_direction: ClockDirection::Falling,
            bit_direction: BitDirection::LsbFirst,
        },
        length: 1,
    };
    assert_eq!(read.to_bytes(), vec![0x2B, 0x00]);
}

#[test]
fn loopback_commands() {
    assert_eq!(Command::SetLoopback { enable: true }.to_bytes(), vec![0x84]);
    assert_eq!(Command::SetLoopback { enable: false }.to_bytes(), vec![0x85]);
}

#[test]
fn set_bits_command() {
    let command = Command::SetBits {
        range: PinRange::High,
        value: 0x0Fu8.into(),
        direction: 0xF0u8.into(),
    };
    assert_eq!(command.to_bytes(), vec![0x82, 0x0F, 0xF0]);
}

#[test]
fn expected_response_lengths() {
    let options = rising_msb;
    assert_eq!(
        Command::ReadDataShiftBits { options: options(), length: 3 }.expected_response_length(),
        1
    );
    assert_eq!(
        Command::ReadDataShiftBytes { options: options(), length: 300 }.expected_response_length(),
        300
    );
    assert_eq!(
        Command::WriteDataShiftBits { options: options(), bits: 1, length: 1 }
            .expected_response_length(),
        0
    );
    assert_eq!(
        Command::WriteDataShiftBytes { options: options(), bytes: vec![1] }
            .expected_response_length(),
        0
    );
    assert_eq!(Command::ReadBits { range: PinRange::Low }.expected_response_length(), 1);
    assert_eq!(Command::WaitForIo { value: PinValue::Low }.expected_response_length(), 1);
    assert_eq!(Command::SetLoopback { enable: true }.expected_response_length(), 0);
    assert_eq!(Command::SetClockDivisor { divisor: 9 }.expected_response_length(), 0);
    assert_eq!(
        Command::SetBits {
            range: PinRange::Low,
            value: 0u8.into(),
            direction: 0u8.into()
        }
        .expected_response_length(),
        0
    );
}

#[test]
fn command_list_response_length_is_sum() {
    let list = CommandList(vec![
        Command::ReadDataShiftBytes { options: rising_msb(), length: 10 },
        Command::ReadBits { range: PinRange::High },
        Command::SetLoopback { enable: false },
        Command::WaitForIo { value: PinValue::High },
    ]);
    assert_eq!(list.expected_response_length(), 12);
    assert_eq!(CommandList(vec![]).expected_response_length(), 0);
}

#[test]
fn command_list_bytes_in_order() {
    let list = CommandList(vec![
        Command::SetClockDivisor { divisor: 0x0102 },
        Command::ReadBits { range: PinRange::Low },
        Command::WriteDataShiftBytes { options: rising_msb(), bytes: vec![7, 8] },
    ]);
    assert_eq!(
        list.into_bytes(),
        vec![0x86, 0x02, 0x01, 0x81, 0x10, 0x01, 0x00, 7, 8]
    );
}
