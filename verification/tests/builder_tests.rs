use mpsse::builder::{ReadBuilder, WriteBuilder};
use mpsse::{BitDirection, Builder, ClockDirection, PinRange, PinValue};

#[test]
fn builder_syntax_test() {
    let data = vec![0x10, 0x01, 0x20, 0x01];

    let commands = Builder::new()
        .write_data(data)
        .with_clock_direction(ClockDirection::Rising)
        .with_bit_direction(BitDirection::MsbFirst)
        .build();

    let command_bytes: Vec<u8> = commands.into_iter().collect();

    assert_eq!(
        command_bytes,
        vec![0x10, 0x03, 0x00, 0x10, 0x01, 0x20, 0x01]
    );
}

#[test]
fn builder_syntax_test_read() {
    let commands = Builder::new()
        .read_data(15)
        .with_clock_direction(ClockDirection::Rising)
        .with_bit_direction(BitDirection::MsbFirst)
        .build();

    let command_bytes: Vec<u8> = commands.into_iter().collect();

    assert_eq!(command_bytes, vec![0x20, 0x0e, 0x00]);
}

#[test]
fn empty_builder_builds_nothing() {
    assert_eq!(Builder::new().build(), Vec::<u8>::new());
}

#[test]
fn write_data_example() {
    let commands = Builder::new()
        .write_data(vec![0xD, 0xEC, 0xAF])
        .with_clock_direction(ClockDirection::Rising)
        .with_bit_direction(BitDirection::MsbFirst)
        .build();
    assert_eq!(commands, vec![0x10, 0x02, 0x00, 0xD, 0xEC, 0xAF]);
}

#[test]
fn write_data_defaults_are_rising_msb_first() {
    let explicit = Builder::new()
        .write_data(vec![0x01])
        .with_clock_direction(ClockDirection::Rising)
        .with_bit_direction(BitDirection::MsbFirst)
        .build();
    let default = Builder::new().write_data(vec![0x01]).build();
    assert_eq!(explicit, default);
}

#[test]
fn read_data_example() {
    let commands = Builder::new()
        .read_data(328)
        .with_clock_direction(ClockDirection::Rising)
        .with_bit_direction(BitDirection::MsbFirst)
        .build();
    assert_eq!(commands, vec![0x20, 0x47, 0x01]);
}

#[test]
fn read_data_clock_direction() {
    let commands = Builder::new()
        .read_data(1)
        .with_clock_direction(ClockDirection::Rising)
        .and_then()
        .read_data(1)
        .with_clock_direction(ClockDirection::Falling)
        .build();
    assert_eq!(commands, vec![0x20, 0x00, 0x00, 0x21, 0x00, 0x00]);
}

#[test]
fn read_data_bit_direction() {
    let commands = Builder::new()
        .read_data(1)
        .with_bit_direction(BitDirection::MsbFirst)
        .and_then()
        .read_data(1)
        .with_bit_direction(BitDirection::LsbFirst)
        .build();
    assert_eq!(commands, vec![0x20, 0x00, 0x00, 0x28, 0x00, 0x00]);
}

#[test]
fn write_data_clock_direction() {
    let commands = Builder::new()
        .write_data(vec![0x01])
        .with_clock_direction(ClockDirection::Rising)
        .and_then()
        .write_data(vec![0x01])
        .with_clock_direction(ClockDirection::Falling)
        .build();
    assert_eq!(commands, vec![0x10, 0x00, 0x00, 0x01, 0x11, 0x00, 0x00, 0x01]);
}

#[test]
fn write_data_bit_direction() {
    let commands = Builder::new()
        .write_data(vec![0x01])
        .with_bit_direction(BitDirection::MsbFirst)
        .and_then()
        .write_data(vec![0x01])
        .with_bit_direction(BitDirection::LsbFirst)
        .build();
    assert_eq!(commands, vec![0x10, 0x00, 0x00, 0x01, 0x18, 0x00, 0x00, 0x01]);
}

#[test]
fn falling_lsb_read_sets_both_bits() {
    let read: ReadBuilder = Builder::new().read_data(0x0100);
    let commands = read
        .with_bit_direction(BitDirection::LsbFirst)
        .with_clock_direction(ClockDirection::Falling)
        .build();
    assert_eq!(commands, vec![0x29, 0xFF, 0x00]);
}

#[test]
fn falling_lsb_write_sets_both_bits() {
    let write: WriteBuilder = Builder::new().write_data(vec![0xAA, 0x55]);
    let commands = write
        .with_clock_direction(ClockDirection::Falling)
        .with_bit_direction(BitDirection::LsbFirst)
        .build();
    assert_eq!(commands, vec![0x19, 0x01, 0x00, 0xAA, 0x55]);
}

#[test]
fn last_direction_setting_wins() {
    let commands = Builder::new()
        .read_data(2)
        .with_clock_direction(ClockDirection::Falling)
        .with_clock_direction(ClockDirection::Rising)
        .build();
    assert_eq!(commands, vec![0x20, 0x01, 0x00]);
}

#[test]
fn write_length_field_wraps_past_sixteen_bits() {
    let data = vec![0x5Au8; 65537];
    let commands = Builder::new().write_data(data).build();
    assert_eq!(commands.len(), 3 + 65537);
    assert_eq!(&commands[..3], &[0x10, 0x00, 0x00]);
}

#[test]
fn write_length_field_at_sixteen_bits() {
    let data = vec![0x5Au8; 65536];
    let commands = Builder::new().write_data(data).build();
    assert_eq!(&commands[..3], &[0x10, 0xFF, 0xFF]);
}

#[test]
fn read_max_length() {
    let commands = Builder::new().read_data(u16::MAX).build();
    assert_eq!(commands, vec![0x20, 0xFE, 0xFF]);
}

#[test]
fn set_pins_example() {
    let commands = Builder::new()
        .set_pins(PinRange::Low, 0b00110100u8, 0b11001100u8)
        .build();
    assert_eq!(commands, vec![0x80, 0xCC, 0x34]);
}

#[test]
fn set_pins_high_range() {
    let commands = Builder::new()
        .set_pins(PinRange::High, 0xFFu8, 0x01u8)
        .build();
    assert_eq!(commands, vec![0x82, 0x01, 0xFF]);
}

#[test]
fn read_pins_example() {
    assert_eq!(Builder::new().read_pins(PinRange::High).build(), vec![0x83]);
    assert_eq!(Builder::new().read_pins(PinRange::Low).build(), vec![0x81]);
}

#[test]
fn wait_for_io_example() {
    assert_eq!(Builder::new().wait_for_io(PinValue::High).build(), vec![0x88]);
    assert_eq!(Builder::new().wait_for_io(PinValue::Low).build(), vec![0x89]);
}

#[test]
fn set_divisor_example() {
    assert_eq!(Builder::new().set_divisor(5).build(), vec![0x86, 0x05, 0x00]);
    assert_eq!(Builder::new().set_divisor(1199).build(), vec![0x86, 0xAF, 0x04]);
}

#[test]
fn chained_commands_come_out_in_order() {
    let commands = Builder::new()
        .set_divisor(0x3B)
        .and_then()
        .read_data(15)
        .with_clock_direction(ClockDirection::Rising)
        .build();
    assert_eq!(commands, vec![0x86, 0x3B, 0x00, 0x20, 0x0E, 0x00]);
}

#[test]
fn build_is_concatenation_of_parts() {
    let first = Builder::new().read_pins(PinRange::Low).build();
    let second = Builder::new().write_data(vec![1, 2]).build();
    let both = Builder::new()
        .read_pins(PinRange::Low)
        .and_then()
        .write_data(vec![1, 2])
        .build();
    let mut joined = first.clone();
    joined.extend(second);
    assert_eq!(both, joined);
}
