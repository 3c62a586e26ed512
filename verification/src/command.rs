use vstd::prelude::*;
use vstd::std_specs::convert::FromSpec;

verus! {

/// The clock edge on which data is shifted.
#[derive(Debug, Clone, Copy, PartialEq, Eq)]
pub enum ClockDirection {
    Rising,
    Falling,
}

/// The order in which the bits of a byte are shifted.
#[derive(Debug, Clone, Copy, PartialEq, Eq)]
pub enum BitDirection {
    LsbFirst,
    MsbFirst,
}

/// `bit` when `on` holds, else nothing.
pub open spec fn flag(on: bool, bit: u8) -> int {
    if on {
        bit as int
    } else {
        0
    }
}

/// The opcode byte of a data shifting command: each option sets one bit of it.
pub open spec fn shift_opcode(
    write_clock: ClockDirection,
    read_clock: ClockDirection,
    bit_direction: BitDirection,
    write_tdi: bool,
    read_tdo: bool,
    write_tms: bool,
) -> u8 {
    (flag(write_clock == ClockDirection::Falling, 0x01) + flag(
        read_clock == ClockDirection::Falling,
        0x04,
    ) + flag(bit_direction == BitDirection::LsbFirst, 0x08) + flag(write_tdi, 0x10) + flag(
        read_tdo,
        0x20,
    ) + flag(write_tms, 0x40)) as u8
}

/// Six disjoint flag bits combine by `|` as they do by `+`.
proof fn lemma_or_of_flags(a: u8, b: u8, c: u8, d: u8, e: u8, f: u8)
    requires
        a == 0 || a == 0x01,
        b == 0 || b == 0x04,
        c == 0 || c == 0x08,
        d == 0 || d == 0x10,
        e == 0 || e == 0x20,
        f == 0 || f == 0x40,
    ensures
        a | b | c | d | e | f == a + b + c + d + e + f,
        (a | b | c | d | e | f) | 0x02 == a + b + c + d + e + f + 2,
{
    assert(a | b | c | d | e | f == a + b + c + d + e + f) by (bit_vector)
        requires
            a == 0 || a == 0x01,
            b == 0 || b == 0x04,
            c == 0 || c == 0x08,
            d == 0 || d == 0x10,
            e == 0 || e == 0x20,
            f == 0 || f == 0x40,
    ;
    assert((a | b | c | d | e | f) | 0x02 == a + b + c + d + e + f + 2) by (bit_vector)
        requires
            a == 0 || a == 0x01,
            b == 0 || b == 0x04,
            c == 0 || c == 0x08,
            d == 0 || d == 0x10,
            e == 0 || e == 0x20,
            f == 0 || f == 0x40,
    ;
}

/// Every option of a data shifting command.
#[derive(Debug)]
struct FullDataShiftOptions {
    read_clock_direction: ClockDirection,
    write_clock_direction: ClockDirection,
    bit_direction: BitDirection,
    write_tdi: bool,
    read_tdo: bool,
    write_tms: bool,
}

impl FullDataShiftOptions {
    /// Clock on the rising edge, most significant bit first, no pin driven
    /// or sampled.
    fn default() -> (r: Self)
        ensures
            r.read_clock_direction == ClockDirection::Rising,
            r.write_clock_direction == ClockDirection::Rising,
            r.bit_direction == BitDirection::MsbFirst,
            !r.write_tdi,
            !r.read_tdo,
            !r.write_tms,
    {
        FullDataShiftOptions {
            read_clock_direction: ClockDirection::Rising,
            write_clock_direction: ClockDirection::Rising,
            bit_direction: BitDirection::MsbFirst,
            write_tdi: false,
            read_tdo: false,
            write_tms: false,
        }
    }
}

impl FullDataShiftOptions {
    spec fn opcode(self) -> u8 {
        shift_opcode(
            self.write_clock_direction,
            self.read_clock_direction,
            self.bit_direction,
            self.write_tdi,
            self.read_tdo,
            self.write_tms,
        )
    }

    /// The opcode byte that these options make.
    fn to_byte(self) -> (byte: u8)
        ensures
            byte == self.opcode(),
            byte | 0x02 == self.opcode() + 2,
    {
        let a: u8 = match self.write_clock_direction {
            ClockDirection::Rising => 0x00,
            ClockDirection::Falling => 0x01,
        };
        let b: u8 = match self.read_clock_direction {
            ClockDirection::Rising => 0x00,
            ClockDirection::Falling => 0x04,
        };
        let c: u8 = match self.bit_direction {
            BitDirection::MsbFirst => 0x00,
            BitDirection::LsbFirst => 0x08,
        };
        let d: u8 = match self.write_tdi {
            false => 0x00,
            true => 0x10,
        };
        let e: u8 = match self.read_tdo {
            false => 0x00,
            true => 0x20,
        };
        let f: u8 = match self.write_tms {
            false => 0x00,
            true => 0x40,
        };
        proof {
            lemma_or_of_flags(a, b, c, d, e, f);
        }
        a | b | c | d | e | f
    }
}


/// Which byte of the interface's pins a command acts on.
#[derive(Debug, Copy, Clone, PartialEq, Eq)]
pub enum PinRange {
    High,
    Low,
}

/// The level of a pin.
#[derive(Debug, Copy, Clone, PartialEq, Eq)]
pub enum PinValue {
    High,
    Low,
}

/// The direction of a pin.
#[derive(Debug, Copy, Clone, PartialEq, Eq)]
pub enum PinDirection {
    Input,
    Output,
}

/// Eight flags that combine by `|` as they do by `+`, flag `i` being
/// `0` or `2^i`.
proof fn lemma_or_of_pin_bits(a0: u8, a1: u8, a2: u8, a3: u8, a4: u8, a5: u8, a6: u8, a7: u8)
    requires
        a0 == 0 || a0 == 0x01,
        a1 == 0 || a1 == 0x02,
        a2 == 0 || a2 == 0x04,
        a3 == 0 || a3 == 0x08,
        a4 == 0 || a4 == 0x10,
        a5 == 0 || a5 == 0x20,
        a6 == 0 || a6 == 0x40,
        a7 == 0 || a7 == 0x80,
    ensures
        a0 | a1 | a2 | a3 | a4 | a5 | a6 | a7 == a0 + a1 + a2 + a3 + a4 + a5 + a6 + a7,
{
    assert(a0 | a1 | a2 | a3 | a4 | a5 | a6 | a7 == a0 + a1 + a2 + a3 + a4 + a5 + a6 + a7)
        by (bit_vector)
        requires
            a0 == 0 || a0 == 0x01,
            a1 == 0 || a1 == 0x02,
            a2 == 0 || a2 == 0x04,
            a3 == 0 || a3 == 0x08,
            a4 == 0 || a4 == 0x10,
            a5 == 0 || a5 == 0x20,
            a6 == 0 || a6 == 0x40,
            a7 == 0 || a7 == 0x80,
    ;
}

/// The byte whose bit `i` is set exactly where `on[i]` holds, for the first
/// eight entries of `on`.
pub open spec fn byte_of_bits(on: Seq<bool>) -> u8 {
    (flag(on[0], 0x01) + flag(on[1], 0x02) + flag(on[2], 0x04) + flag(on[3], 0x08) + flag(
        on[4],
        0x10,
    ) + flag(on[5], 0x20) + flag(on[6], 0x40) + flag(on[7], 0x80)) as u8
}

/// The eight bits of `byte`, least significant first.
pub open spec fn bits_of_byte(byte: u8) -> Seq<bool> {
    seq![
        byte & 0x01 != 0,
        byte & 0x02 != 0,
        byte & 0x04 != 0,
        byte & 0x08 != 0,
        byte & 0x10 != 0,
        byte & 0x20 != 0,
        byte & 0x40 != 0,
        byte & 0x80 != 0,
    ]
}

/// Reading the bits of a byte and packing them again gives the byte back.
pub proof fn lemma_byte_bits_roundtrip(byte: u8)
    ensures
        byte_of_bits(bits_of_byte(byte)) == byte,
{
    let b = bits_of_byte(byte);
    assert(flag(b[0], 0x01) + flag(b[1], 0x02) + flag(b[2], 0x04) + flag(b[3], 0x08) + flag(
        b[4],
        0x10,
    ) + flag(b[5], 0x20) + flag(b[6], 0x40) + flag(b[7], 0x80) == byte as int) by {
        assert(((if byte & 0x01 != 0 { 0x01u8 } else { 0u8 }) + (if byte & 0x02 != 0 {
            0x02u8
        } else {
            0u8
        }) + (if byte & 0x04 != 0 { 0x04u8 } else { 0u8 }) + (if byte & 0x08 != 0 {
            0x08u8
        } else {
            0u8
        }) + (if byte & 0x10 != 0 { 0x10u8 } else { 0u8 }) + (if byte & 0x20 != 0 {
            0x20u8
        } else {
            0u8
        }) + (if byte & 0x40 != 0 { 0x40u8 } else { 0u8 }) + (if byte & 0x80 != 0 {
            0x80u8
        } else {
            0u8
        })) == byte) by (bit_vector);
    }
}

/// Packing eight bits into a byte and reading them back gives the bits.
pub proof fn lemma_bits_byte_roundtrip(on: Seq<bool>)
    requires
        on.len() == 8,
    ensures
        bits_of_byte(byte_of_bits(on)) == on,
{
    let (b0, b1, b2, b3, b4, b5, b6, b7) = (on[0], on[1], on[2], on[3], on[4], on[5], on[6], on[7]);
    let x: u8 = byte_of_bits(on);
    assert(x == ((if b0 { 0x01u8 } else { 0u8 }) + (if b1 { 0x02u8 } else { 0u8 }) + (if b2 {
        0x04u8
    } else {
        0u8
    }) + (if b3 { 0x08u8 } else { 0u8 }) + (if b4 { 0x10u8 } else { 0u8 }) + (if b5 {
        0x20u8
    } else {
        0u8
    }) + (if b6 { 0x40u8 } else { 0u8 }) + (if b7 { 0x80u8 } else { 0u8 })));
    assert({
        &&& (x & 0x01 != 0) == b0
        &&& (x & 0x02 != 0) == b1
        &&& (x & 0x04 != 0) == b2
        &&& (x & 0x08 != 0) == b3
        &&& (x & 0x10 != 0) == b4
        &&& (x & 0x20 != 0) == b5
        &&& (x & 0x40 != 0) == b6
        &&& (x & 0x80 != 0) == b7
    }) by (bit_vector)
        requires
            x == ((if b0 { 0x01u8 } else { 0u8 }) + (if b1 { 0x02u8 } else { 0u8 }) + (if b2 {
                0x04u8
            } else {
                0u8
            }) + (if b3 { 0x08u8 } else { 0u8 }) + (if b4 { 0x10u8 } else { 0u8 }) + (if b5 {
                0x20u8
            } else {
                0u8
            }) + (if b6 { 0x40u8 } else { 0u8 }) + (if b7 { 0x80u8 } else { 0u8 })),
    ;
    assert(bits_of_byte(x) =~= on);
}


/// The level that a set bit (`true`) or a clear bit stands for.
pub open spec fn level_of_bit(on: bool) -> PinValue {
    if on {
        PinValue::High
    } else {
        PinValue::Low
    }
}

/// The direction that a set bit (`true`) or a clear bit stands for.
pub open spec fn direction_of_bit(on: bool) -> PinDirection {
    if on {
        PinDirection::Output
    } else {
        PinDirection::Input
    }
}

/// The levels of the eight pins of one byte, pin 0 first.
#[derive(Debug, Copy, Clone, PartialEq)]
pub struct PinValueArray(pub [PinValue; 8]);

impl PinValueArray {
    /// Which pins are high, pin 0 first.
    pub open spec fn highs(self) -> Seq<bool> {
        Seq::new(8, |i: int| self.0@[i] == PinValue::High)
    }
}

/// The directions of the eight pins of one byte, pin 0 first.
#[derive(Debug, Copy, Clone, PartialEq)]
pub struct PinDirectionArray(pub [PinDirection; 8]);

impl PinDirectionArray {
    /// Which pins are outputs, pin 0 first.
    pub open spec fn outputs(self) -> Seq<bool> {
        Seq::new(8, |i: int| self.0@[i] == PinDirection::Output)
    }
}

fn level_bit(value: PinValue, bit: u8) -> (r: u8)
    ensures
        r == flag(value == PinValue::High, bit),
{
    match value {
        PinValue::High => bit,
        PinValue::Low => 0,
    }
}

fn direction_bit(direction: PinDirection, bit: u8) -> (r: u8)
    ensures
        r == flag(direction == PinDirection::Output, bit),
{
    match direction {
        PinDirection::Input => 0,
        PinDirection::Output => bit,
    }
}

fn level_from(byte: u8, bit: u8) -> (r: PinValue)
    ensures
        r == level_of_bit(byte & bit != 0),
{
    if byte & bit != 0 {
        PinValue::High
    } else {
        PinValue::Low
    }
}

fn direction_from(byte: u8, bit: u8) -> (r: PinDirection)
    ensures
        r == direction_of_bit(byte & bit != 0),
{
    if byte & bit != 0 {
        PinDirection::Output
    } else {
        PinDirection::Input
    }
}

impl From<PinValueArray> for u8 {
    /// Bit `i` of the byte is set exactly where pin `i` is high.
    fn from(pins: PinValueArray) -> (byte: u8) {
        let a = pins.0;
        let a0 = level_bit(a[0], 0x01);
        let a1 = level_bit(a[1], 0x02);
        let a2 = level_bit(a[2], 0x04);
        let a3 = level_bit(a[3], 0x08);
        let a4 = level_bit(a[4], 0x10);
        let a5 = level_bit(a[5], 0x20);
        let a6 = level_bit(a[6], 0x40);
        let a7 = level_bit(a[7], 0x80);
        proof {
            lemma_or_of_pin_bits(a0, a1, a2, a3, a4, a5, a6, a7);
        }
        a0 | a1 | a2 | a3 | a4 | a5 | a6 | a7
    }
}

impl vstd::std_specs::convert::FromSpecImpl<PinValueArray> for u8 {
    open spec fn obeys_from_spec() -> bool {
        true
    }

    open spec fn from_spec(pins: PinValueArray) -> u8 {
        byte_of_bits(pins.highs())
    }
}

impl From<u8> for PinValueArray {
    /// Pin `i` is high exactly where bit `i` of the byte is set.
    fn from(byte: u8) -> (pins: PinValueArray) {
        PinValueArray(
            [
                level_from(byte, 0x01),
                level_from(byte, 0x02),
                level_from(byte, 0x04),
                level_from(byte, 0x08),
                level_from(byte, 0x10),
                level_from(byte, 0x20),
                level_from(byte, 0x40),
                level_from(byte, 0x80),
            ],
        )
    }
}

impl vstd::std_specs::convert::FromSpecImpl<u8> for PinValueArray {
    open spec fn obeys_from_spec() -> bool {
        true
    }

    open spec fn from_spec(byte: u8) -> PinValueArray {
        let on = bits_of_byte(byte);
        PinValueArray(
            [
                level_of_bit(on[0]),
                level_of_bit(on[1]),
                level_of_bit(on[2]),
                level_of_bit(on[3]),
                level_of_bit(on[4]),
                level_of_bit(on[5]),
                level_of_bit(on[6]),
                level_of_bit(on[7]),
            ],
        )
    }
}


impl From<PinDirectionArray> for u8 {
    /// Bit `i` of the byte is set exactly where pin `i` is an output.
    fn from(pins: PinDirectionArray) -> (byte: u8) {
        let a = pins.0;
        let a0 = direction_bit(a[0], 0x01);
        let a1 = direction_bit(a[1], 0x02);
        let a2 = direction_bit(a[2], 0x04);
        let a3 = direction_bit(a[3], 0x08);
        let a4 = direction_bit(a[4], 0x10);
        let a5 = direction_bit(a[5], 0x20);
        let a6 = direction_bit(a[6], 0x40);
        let a7 = direction_bit(a[7], 0x80);
        proof {
            lemma_or_of_pin_bits(a0, a1, a2, a3, a4, a5, a6, a7);
        }
        a0 | a1 | a2 | a3 | a4 | a5 | a6 | a7
    }
}

impl vstd::std_specs::convert::FromSpecImpl<PinDirectionArray> for u8 {
    open spec fn obeys_from_spec() -> bool {
        true
    }

    open spec fn from_spec(pins: PinDirectionArray) -> u8 {
        byte_of_bits(pins.outputs())
    }
}

impl From<u8> for PinDirectionArray {
    /// Pin `i` is an output exactly where bit `i` of the byte is set.
    fn from(byte: u8) -> (pins: PinDirectionArray) {
        PinDirectionArray(
            [
                direction_from(byte, 0x01),
                direction_from(byte, 0x02),
                direction_from(byte, 0x04),
                direction_from(byte, 0x08),
                direction_from(byte, 0x10),
                direction_from(byte, 0x20),
                direction_from(byte, 0x40),
                direction_from(byte, 0x80),
            ],
        )
    }
}

impl vstd::std_specs::convert::FromSpecImpl<u8> for PinDirectionArray {
    open spec fn obeys_from_spec() -> bool {
        true
    }

    open spec fn from_spec(byte: u8) -> PinDirectionArray {
        let on = bits_of_byte(byte);
        PinDirectionArray(
            [
                direction_of_bit(on[0]),
                direction_of_bit(on[1]),
                direction_of_bit(on[2]),
                direction_of_bit(on[3]),
                direction_of_bit(on[4]),
                direction_of_bit(on[5]),
                direction_of_bit(on[6]),
                direction_of_bit(on[7]),
            ],
        )
    }
}

/// A byte turned into pin levels and back is the same byte.
pub proof fn lemma_byte_pin_values_roundtrip(byte: u8)
    ensures
        u8::from_spec(PinValueArray::from_spec(byte)) == byte,
{
    let pins = PinValueArray::from_spec(byte);
    assert(pins.highs() =~= bits_of_byte(byte));
    lemma_byte_bits_roundtrip(byte);
}

/// Pin levels turned into a byte and back are the same levels.
pub proof fn lemma_pin_values_byte_roundtrip(pins: PinValueArray)
    ensures
        PinValueArray::from_spec(u8::from_spec(pins)) == pins,
{
    lemma_bits_byte_roundtrip(pins.highs());
    let back = PinValueArray::from_spec(u8::from_spec(pins));
    assert(back.0 =~= pins.0);
}

/// A byte turned into pin directions and back is the same byte.
pub proof fn lemma_byte_pin_directions_roundtrip(byte: u8)
    ensures
        u8::from_spec(PinDirectionArray::from_spec(byte)) == byte,
{
    let pins = PinDirectionArray::from_spec(byte);
    assert(pins.outputs() =~= bits_of_byte(byte));
    lemma_byte_bits_roundtrip(byte);
}

/// Pin directions turned into a byte and back are the same directions.
pub proof fn lemma_pin_directions_byte_roundtrip(pins: PinDirectionArray)
    ensures
        PinDirectionArray::from_spec(u8::from_spec(pins)) == pins,
{
    lemma_bits_byte_roundtrip(pins.outputs());
    let back = PinDirectionArray::from_spec(u8::from_spec(pins));
    assert(back.0 =~= pins.0);
}


/// The options of a data shifting command that a builder sets.
#[derive(Debug, Clone, Copy, PartialEq, Eq)]
pub struct DataShiftOptions {
    pub clock_direction: ClockDirection,
    pub bit_direction: BitDirection,
}

impl DataShiftOptions {
    /// The full options these stand for: the clock direction is the read
    /// clock, everything else is left at its default.
    fn into_full(self) -> (full: FullDataShiftOptions)
        ensures
            full.read_clock_direction == self.clock_direction,
            full.write_clock_direction == ClockDirection::Rising,
            full.bit_direction == self.bit_direction,
            !full.write_tdi,
            !full.read_tdo,
            !full.write_tms,
    {
        FullDataShiftOptions {
            read_clock_direction: self.clock_direction,
            bit_direction: self.bit_direction,
            ..FullDataShiftOptions::default()
        }
    }
}

impl From<DataShiftOptions> for u8 {
    /// The opcode byte of the full options that `options` stand for.
    fn from(options: DataShiftOptions) -> (byte: u8) {
        options.into_full().to_byte()
    }
}

impl vstd::std_specs::convert::FromSpecImpl<DataShiftOptions> for u8 {
    open spec fn obeys_from_spec() -> bool {
        true
    }

    open spec fn from_spec(options: DataShiftOptions) -> u8 {
        shift_opcode(
            ClockDirection::Rising,
            options.clock_direction,
            options.bit_direction,
            false,
            false,
            false,
        )
    }
}

/// The two bytes of `x`, least significant first.
pub open spec fn le16(x: u16) -> Seq<u8> {
    seq![(x % 256) as u8, (x / 256) as u8]
}

/// Appends the two bytes of `x`, least significant first.
fn push_le16(out: &mut Vec<u8>, x: u16)
    ensures
        final(out)@ == old(out)@ + le16(x),
{
    out.push((x % 256) as u8);
    out.push((x / 256) as u8);
    assert(final(out)@ =~= old(out)@ + le16(x));
}

/// One MPSSE command.
#[derive(Debug)]
pub enum Command {
    ReadDataShiftBits { options: DataShiftOptions, length: u8 },
    ReadDataShiftBytes { options: DataShiftOptions, length: u16 },
    WriteDataShiftBits { options: DataShiftOptions, bits: u8, length: u8 },
    WriteDataShiftBytes { options: DataShiftOptions, bytes: Vec<u8> },
    SetBits { range: PinRange, value: PinValueArray, direction: PinDirectionArray },
    ReadBits { range: PinRange },
    SetLoopback { enable: bool },
    SetClockDivisor { divisor: u16 },
    WaitForIo { value: PinValue },
}

/// The opcode of a data shifting command that drives the pin or samples it,
/// on the clock edge of `options`.
pub open spec fn data_shift_opcode(options: DataShiftOptions, write_tdi: bool, read_tdo: bool) -> u8 {
    shift_opcode(
        options.clock_direction,
        ClockDirection::Rising,
        options.bit_direction,
        write_tdi,
        read_tdo,
        false,
    )
}

impl Command {
    /// Whether the command has bytes: a data shifting command moves at least
    /// one bit or byte.
    pub open spec fn encodable(&self) -> bool {
        match self {
            Command::ReadDataShiftBits { length, .. } => *length >= 1,
            Command::ReadDataShiftBytes { length, .. } => *length >= 1,
            Command::WriteDataShiftBits { length, .. } => *length >= 1,
            Command::WriteDataShiftBytes { bytes, .. } => bytes@.len() >= 1,
            _ => true,
        }
    }

    /// The bytes that stand for the command on the wire.
    pub open spec fn encoding(&self) -> Seq<u8> {
        match self {
            Command::WriteDataShiftBits { options, bits, length } => seq![
                (data_shift_opcode(*options, true, false) + 0x02) as u8,
                (*length - 1) as u8,
                *bits,
            ],
            Command::ReadDataShiftBits { options, length } => seq![
                (data_shift_opcode(*options, false, true) + 0x02) as u8,
                (*length - 1) as u8,
            ],
            Command::WriteDataShiftBytes { options, bytes } => seq![
                data_shift_opcode(*options, true, false),
            ] + le16((bytes@.len() - 1) as u16) + bytes@,
            Command::ReadDataShiftBytes { options, length } => seq![
                data_shift_opcode(*options, false, true),
            ] + le16((*length - 1) as u16),
            Command::SetBits { range, value, direction } => seq![
                if *range == PinRange::Low {
                    0x80u8
                } else {
                    0x82u8
                },
                u8::from_spec(*value),
                u8::from_spec(*direction),
            ],
            Command::ReadBits { range } => seq![
                if *range == PinRange::Low {
                    0x81u8
                } else {
                    0x83u8
                },
            ],
            Command::SetLoopback { enable } => seq![
                if *enable {
                    0x84u8
                } else {
                    0x85u8
                },
            ],
            Command::SetClockDivisor { divisor } => seq![0x86u8] + le16(*divisor),
            Command::WaitForIo { value } => seq![
                if *value == PinValue::High {
                    0x88u8
                } else {
                    0x89u8
                },
            ],
        }
    }

    /// How many bytes the device sends back for the command.
    pub open spec fn response_len(&self) -> nat {
        match self {
            Command::ReadDataShiftBits { .. } => 1,
            Command::ReadDataShiftBytes { length, .. } => *length as nat,
            Command::ReadBits { .. } => 1,
            Command::WaitForIo { .. } => 1,
            _ => 0,
        }
    }

    /// How many bytes the device sends back for this command.
    pub fn expected_response_length(&self) -> (n: usize)
        ensures
            n == self.response_len(),
    {
        match self {
            Command::ReadDataShiftBits { options: _, length: _ } => 1,
            Command::WriteDataShiftBits { options: _, bits: _, length: _ } => 0,
            Command::WriteDataShiftBytes { options: _, bytes: _ } => 0,
            Command::ReadDataShiftBytes { options: _, length } => *length as usize,
            Command::SetBits { range: _, value: _, direction: _ } => 0,
            Command::ReadBits { range: _ } => 1,
            Command::SetLoopback { enable: _ } => 0,
            Command::SetClockDivisor { divisor: _ } => 0,
            Command::WaitForIo { value: _ } => 1,
        }
    }

    /// The bytes that stand for this command on the wire.
    pub fn to_bytes(&self) -> (out: Vec<u8>)
        requires
            self.encodable(),
        ensures
            out@ == self.encoding(),
    {
        match self {
            Command::WriteDataShiftBits { options, bits, length } => {
                let full_options = FullDataShiftOptions {
                    write_clock_direction: options.clock_direction,
                    bit_direction: options.bit_direction,
                    write_tdi: true,
                    ..FullDataShiftOptions::default()
                };
                let opcode: u8 = full_options.to_byte();
                let out = vec![opcode | 0x02, *length - 1, *bits];
                assert(out@ =~= self.encoding());
                out
            },
            Command::ReadDataShiftBits { options, length } => {
                let full_options = FullDataShiftOptions {
                    write_clock_direction: options.clock_direction,
                    bit_direction: options.bit_direction,
                    read_tdo: true,
                    ..FullDataShiftOptions::default()
                };
                let opcode: u8 = full_options.to_byte();
                let out = vec![opcode | 0x02, *length - 1];
                assert(out@ =~= self.encoding());
                out
            },
            Command::WriteDataShiftBytes { options, bytes } => {
                let full_options = FullDataShiftOptions {
                    write_clock_direction: options.clock_direction,
                    bit_direction: options.bit_direction,
                    write_tdi: true,
                    ..FullDataShiftOptions::default()
                };
                let opcode: u8 = full_options.to_byte();
                let mut out = vec![opcode];
                push_le16(&mut out, (bytes.len() - 1) as u16);
                let mut payload = bytes.clone();
                assert(payload@ =~= bytes@);
                out.append(&mut payload);
                assert(out@ =~= self.encoding());
                out
            },
            Command::ReadDataShiftBytes { options, length } => {
                let full_options = FullDataShiftOptions {
                    write_clock_direction: options.clock_direction,
                    bit_direction: options.bit_direction,
                    read_tdo: true,
                    ..FullDataShiftOptions::default()
                };
                let opcode: u8 = full_options.to_byte();
                let mut out = vec![opcode];
                push_le16(&mut out, *length - 1);
                assert(out@ =~= self.encoding());
                out
            },
            Command::SetBits { range, value, direction } => {
                let opcode: u8 = match range {
                    PinRange::Low => 0x80,
                    PinRange::High => 0x82,
                };
                let out = vec![opcode, u8::from(*value), u8::from(*direction)];
                assert(out@ =~= self.encoding());
                out
            },
            Command::ReadBits { range } => {
                let opcode: u8 = match range {
                    PinRange::Low => 0x81,
                    PinRange::High => 0x83,
                };
                let out = vec![opcode];
                assert(out@ =~= self.encoding());
                out
            },
            Command::SetLoopback { enable } => {
                let opcode: u8 = match enable {
                    true => 0x84,
                    false => 0x85,
                };
                let out = vec![opcode];
                assert(out@ =~= self.encoding());
                out
            },
            Command::SetClockDivisor { divisor } => {
                let mut out = vec![0x86];
                push_le16(&mut out, *divisor);
                assert(out@ =~= self.encoding());
                out
            },
            Command::WaitForIo { value } => {
                let out = match value {
                    PinValue::High => vec![0x88],
                    PinValue::Low => vec![0x89],
                };
                assert(out@ =~= self.encoding());
                out
            },
        }
    }
}


/// Every command of `commands` has bytes.
pub open spec fn all_encodable(commands: Seq<Command>) -> bool {
    forall|i: int| 0 <= i < commands.len() ==> (#[trigger] commands[i]).encodable()
}

/// The bytes of `commands`, one command after the other.
pub open spec fn encode_all(commands: Seq<Command>) -> Seq<u8>
    decreases commands.len(),
{
    if commands.len() == 0 {
        Seq::empty()
    } else {
        encode_all(commands.drop_last()) + commands.last().encoding()
    }
}

/// How many bytes the device sends back for all of `commands`.
pub open spec fn total_response_len(commands: Seq<Command>) -> nat
    decreases commands.len(),
{
    if commands.len() == 0 {
        0
    } else {
        total_response_len(commands.drop_last()) + commands.last().response_len()
    }
}

/// The bytes of two command lists one after the other are the bytes of the
/// joined list.
pub proof fn lemma_encode_all_concat(a: Seq<Command>, b: Seq<Command>)
    ensures
        encode_all(a + b) == encode_all(a) + encode_all(b),
    decreases b.len(),
{
    if b.len() == 0 {
        assert(a + b =~= a);
        assert(encode_all(a) + encode_all(b) =~= encode_all(a));
    } else {
        lemma_encode_all_concat(a, b.drop_last());
        assert((a + b).drop_last() =~= a + b.drop_last());
        assert(encode_all(a + b) =~= encode_all(a) + encode_all(b));
    }
}

/// The response length of two command lists joined is the sum of theirs.
pub proof fn lemma_total_response_len_concat(a: Seq<Command>, b: Seq<Command>)
    ensures
        total_response_len(a + b) == total_response_len(a) + total_response_len(b),
    decreases b.len(),
{
    if b.len() == 0 {
        assert(a + b =~= a);
    } else {
        lemma_total_response_len_concat(a, b.drop_last());
        assert((a + b).drop_last() =~= a + b.drop_last());
    }
}

/// A list of commands, sent one after the other.
#[derive(Debug)]
pub struct CommandList(pub Vec<Command>);

impl CommandList {
    /// How many bytes the device sends back for all the commands.
    pub fn expected_response_length(self) -> (n: usize)
        requires
            total_response_len(self.0@) <= usize::MAX,
        ensures
            n == total_response_len(self.0@),
    {
        let commands = &self.0;
        let mut total: usize = 0;
        let mut i: usize = 0;
        while i < commands.len()
            invariant
                i <= commands.len(),
                total == total_response_len(commands@.take(i as int)),
                total_response_len(commands@) <= usize::MAX,
            decreases commands.len() - i,
        {
            proof {
                let done = commands@.take(i as int + 1);
                assert(done.drop_last() =~= commands@.take(i as int));
                assert(commands@ =~= done + commands@.skip(i as int + 1));
                lemma_total_response_len_concat(done, commands@.skip(i as int + 1));
            }
            total = total + commands[i].expected_response_length();
            i = i + 1;
        }
        assert(commands@.take(i as int) =~= commands@);
        total
    }

    /// The bytes of all the commands, one after the other.
    pub fn into_bytes(self) -> (out: Vec<u8>)
        requires
            all_encodable(self.0@),
        ensures
            out@ == encode_all(self.0@),
    {
        let commands = &self.0;
        let mut out: Vec<u8> = Vec::new();
        let mut i: usize = 0;
        while i < commands.len()
            invariant
                i <= commands.len(),
                out@ == encode_all(commands@.take(i as int)),
                all_encodable(commands@),
            decreases commands.len() - i,
        {
            let mut bytes = commands[i].to_bytes();
            out.append(&mut bytes);
            proof {
                assert(commands@.take(i as int + 1).drop_last() =~= commands@.take(i as int));
            }
            i = i + 1;
        }
        assert(commands@.take(i as int) =~= commands@);
        out
    }
}


/// Each option of a data shifting command owns one bit of its opcode: bit 0
/// the write clock edge, bit 2 the read clock edge, bit 3 the bit order, bit 4
/// driving the data out pin, bit 5 sampling the data in pin, bit 6 TMS; bits 1
/// and 7 stay clear.
pub proof fn lemma_shift_opcode_bits(
    write_clock: ClockDirection,
    read_clock: ClockDirection,
    bit_direction: BitDirection,
    write_tdi: bool,
    read_tdo: bool,
    write_tms: bool,
)
    ensures
        ({
            let op = shift_opcode(write_clock, read_clock, bit_direction, write_tdi, read_tdo, write_tms);
            &&& (op & 0x01 != 0) == (write_clock == ClockDirection::Falling)
            &&& (op & 0x04 != 0) == (read_clock == ClockDirection::Falling)
            &&& (op & 0x08 != 0) == (bit_direction == BitDirection::LsbFirst)
            &&& (op & 0x10 != 0) == write_tdi
            &&& (op & 0x20 != 0) == read_tdo
            &&& (op & 0x40 != 0) == write_tms
            &&& op & 0x02 == 0
            &&& op & 0x80 == 0
        }),
{
    let op = shift_opcode(write_clock, read_clock, bit_direction, write_tdi, read_tdo, write_tms);
    let b1 = write_clock == ClockDirection::Falling;
    let b2 = read_clock == ClockDirection::Falling;
    let b3 = bit_direction == BitDirection::LsbFirst;
    let b4 = write_tdi;
    let b5 = read_tdo;
    let b6 = write_tms;
    assert(op == (if b1 { 0x01u8 } else { 0u8 }) + (if b2 { 0x04u8 } else { 0u8 }) + (if b3 {
        0x08u8
    } else {
        0u8
    }) + (if b4 { 0x10u8 } else { 0u8 }) + (if b5 { 0x20u8 } else { 0u8 }) + (if b6 {
        0x40u8
    } else {
        0u8
    }));
    assert({
        &&& (op & 0x01 != 0) == b1
        &&& (op & 0x04 != 0) == b2
        &&& (op & 0x08 != 0) == b3
        &&& (op & 0x10 != 0) == b4
        &&& (op & 0x20 != 0) == b5
        &&& (op & 0x40 != 0) == b6
        &&& op & 0x02 == 0
        &&& op & 0x80 == 0
    }) by (bit_vector)
        requires
            op == (if b1 { 0x01u8 } else { 0u8 }) + (if b2 { 0x04u8 } else { 0u8 }) + (if b3 {
                0x08u8
            } else {
                0u8
            }) + (if b4 { 0x10u8 } else { 0u8 }) + (if b5 { 0x20u8 } else { 0u8 }) + (if b6 {
                0x40u8
            } else {
                0u8
            }),
    ;
}

/// A byte-wise write of `n` bytes, for `1 <= n <= 65536`, is the opcode, the
/// count `n - 1` least significant byte first, then the bytes themselves.
pub proof fn lemma_write_bytes_layout(options: DataShiftOptions, bytes: Vec<u8>)
    requires
        1 <= bytes@.len() <= 65536,
    ensures
        ({
            let enc = (Command::WriteDataShiftBytes { options, bytes }).encoding();
            &&& enc.len() == 3 + bytes@.len()
            &&& enc[0] == 0x10 + clock_bit(options) + order_bit(options)
            &&& enc[1] + 256 * enc[2] == bytes@.len() - 1
            &&& enc.subrange(3, enc.len() as int) == bytes@
        }),
{
    let enc = (Command::WriteDataShiftBytes { options, bytes }).encoding();
    assert(enc.subrange(3, enc.len() as int) =~= bytes@);
}

/// A byte-wise read of `length` bytes, for `length >= 1`, is the opcode and
/// the count `length - 1`, least significant byte first.
pub proof fn lemma_read_bytes_layout(options: DataShiftOptions, length: u16)
    requires
        length >= 1,
    ensures
        ({
            let enc = (Command::ReadDataShiftBytes { options, length }).encoding();
            &&& enc.len() == 3
            &&& enc[0] == 0x20 + clock_bit(options) + order_bit(options)
            &&& enc[1] == (length - 1) % 256
            &&& enc[2] == (length - 1) / 256
        }),
{
}

/// The empty list has no bytes, and adding a command after a list adds its
/// bytes after the bytes of the list.
pub proof fn lemma_encode_all_push(commands: Seq<Command>, command: Command)
    ensures
        encode_all(Seq::<Command>::empty()) == Seq::<u8>::empty(),
        encode_all(commands.push(command)) == encode_all(commands) + command.encoding(),
{
    assert(commands.push(command).drop_last() =~= commands);
}


/// The opcode bit that a falling clock edge sets in a data shifting command:
/// bit 0 (`0x01`).
pub open spec fn clock_bit(options: DataShiftOptions) -> int {
    if options.clock_direction == ClockDirection::Falling {
        0x01
    } else {
        0
    }
}

/// The opcode bit that least significant bit first sets in a data shifting
/// command: bit 3 (`0x08`).
pub open spec fn order_bit(options: DataShiftOptions) -> int {
    if options.bit_direction == BitDirection::LsbFirst {
        0x08
    } else {
        0
    }
}

/// A bit-wise write is three bytes: the opcode `0x12` (bits mode, data out)
/// with bit 0 set for a falling clock and bit 3 for least significant bit
/// first, then `length - 1`, then the bits.
pub proof fn lemma_write_bits_layout(options: DataShiftOptions, bits: u8, length: u8)
    requires
        length >= 1,
    ensures
        (Command::WriteDataShiftBits { options, bits, length }).encoding() == seq![
            (0x12 + clock_bit(options) + order_bit(options)) as u8,
            (length - 1) as u8,
            bits,
        ],
{
}

/// A bit-wise read is two bytes: the opcode `0x22` (bits mode, data in) with
/// bit 0 set for a falling clock and bit 3 for least significant bit first,
/// then `length - 1`.
pub proof fn lemma_read_bits_layout(options: DataShiftOptions, length: u8)
    requires
        length >= 1,
    ensures
        (Command::ReadDataShiftBits { options, length }).encoding() == seq![
            (0x22 + clock_bit(options) + order_bit(options)) as u8,
            (length - 1) as u8,
        ],
{
}

/// The count field of a byte-wise write of `n >= 1` bytes holds `n - 1`
/// modulo `2^16`, least significant byte first, and the bytes follow it
/// unchanged.
pub proof fn lemma_write_bytes_count_field(options: DataShiftOptions, bytes: Vec<u8>)
    requires
        bytes@.len() >= 1,
    ensures
        ({
            let enc = (Command::WriteDataShiftBytes { options, bytes }).encoding();
            &&& enc.len() == 3 + bytes@.len()
            &&& enc[0] == 0x10 + clock_bit(options) + order_bit(options)
            &&& enc[1] == ((bytes@.len() - 1) % 65536) % 256
            &&& enc[2] == ((bytes@.len() - 1) % 65536) / 256
            &&& enc.subrange(3, enc.len() as int) == bytes@
        }),
{
    let enc = (Command::WriteDataShiftBytes { options, bytes }).encoding();
    let n: usize = (bytes.len() - 1) as usize;
    assert(n as int == bytes@.len() - 1);
    assert((n as u16) as int == n % 65536) by (bit_vector);
    assert(((bytes@.len() - 1) as u16) == (n as u16));
    assert(enc[1] == (n as u16) % 256);
    assert(enc[2] == (n as u16) / 256);
    assert(enc.subrange(3, enc.len() as int) =~= bytes@);
}

/// The Set Clock Divisor command is `0x86` and then the divisor, least
/// significant byte first.
pub proof fn lemma_set_clock_divisor_layout(divisor: u16)
    ensures
        ({
            let enc = (Command::SetClockDivisor { divisor }).encoding();
            &&& enc == seq![0x86u8, (divisor % 256) as u8, (divisor / 256) as u8]
            &&& enc[1] + 256 * enc[2] == divisor
        }),
{
    let enc = (Command::SetClockDivisor { divisor }).encoding();
    assert(enc =~= seq![0x86u8, (divisor % 256) as u8, (divisor / 256) as u8]);
}

/// The one-byte commands: reading the low pins is `0x81` and the high pins
/// `0x83`; loopback on is `0x84` and off `0x85`; waiting for a high level is
/// `0x88` and for a low one `0x89`.
pub proof fn lemma_one_byte_commands()
    ensures
        (Command::ReadBits { range: PinRange::Low }).encoding() == seq![0x81u8],
        (Command::ReadBits { range: PinRange::High }).encoding() == seq![0x83u8],
        (Command::SetLoopback { enable: true }).encoding() == seq![0x84u8],
        (Command::SetLoopback { enable: false }).encoding() == seq![0x85u8],
        (Command::WaitForIo { value: PinValue::High }).encoding() == seq![0x88u8],
        (Command::WaitForIo { value: PinValue::Low }).encoding() == seq![0x89u8],
{
}

/// The opcode byte of a data shifting option set has bit 2 (`0x04`) set for a
/// falling clock and bit 3 (`0x08`) for least significant bit first, and no
/// other bit.
pub proof fn lemma_data_shift_options_byte(options: DataShiftOptions)
    ensures
        u8::from_spec(options) == (if options.clock_direction == ClockDirection::Falling {
            0x04int
        } else {
            0
        }) + order_bit(options),
{
}

/// `1 << i` is the mask of bit `i`, for each bit of a byte.
proof fn lemma_bit_masks(byte: u8)
    ensures
        (byte & (1u8 << 0u8) != 0) == (byte & 0x01 != 0),
        (byte & (1u8 << 1u8) != 0) == (byte & 0x02 != 0),
        (byte & (1u8 << 2u8) != 0) == (byte & 0x04 != 0),
        (byte & (1u8 << 3u8) != 0) == (byte & 0x08 != 0),
        (byte & (1u8 << 4u8) != 0) == (byte & 0x10 != 0),
        (byte & (1u8 << 5u8) != 0) == (byte & 0x20 != 0),
        (byte & (1u8 << 6u8) != 0) == (byte & 0x40 != 0),
        (byte & (1u8 << 7u8) != 0) == (byte & 0x80 != 0),
{
    assert((byte & (1u8 << 0u8) != 0) == (byte & 0x01 != 0)) by (bit_vector);
    assert((byte & (1u8 << 1u8) != 0) == (byte & 0x02 != 0)) by (bit_vector);
    assert((byte & (1u8 << 2u8) != 0) == (byte & 0x04 != 0)) by (bit_vector);
    assert((byte & (1u8 << 3u8) != 0) == (byte & 0x08 != 0)) by (bit_vector);
    assert((byte & (1u8 << 4u8) != 0) == (byte & 0x10 != 0)) by (bit_vector);
    assert((byte & (1u8 << 5u8) != 0) == (byte & 0x20 != 0)) by (bit_vector);
    assert((byte & (1u8 << 6u8) != 0) == (byte & 0x40 != 0)) by (bit_vector);
    assert((byte & (1u8 << 7u8) != 0) == (byte & 0x80 != 0)) by (bit_vector);
}

/// Bit `i` of `byte` is the `i`-th entry of `bits_of_byte(byte)`.
proof fn lemma_bit_i(byte: u8, i: int)
    requires
        0 <= i < 8,
    ensures
        bits_of_byte(byte)[i] == (byte & (1u8 << (i as u8)) != 0),
{
    lemma_bit_masks(byte);
    if i == 0 {
    } else if i == 1 {
    } else if i == 2 {
    } else if i == 3 {
    } else if i == 4 {
    } else if i == 5 {
    } else if i == 6 {
    } else {
    }
}

/// Pin `i` of the levels made from a byte is high exactly when bit `i` of the
/// byte is set.
pub proof fn lemma_pin_values_from_byte(byte: u8)
    ensures
        forall|i: int|
            0 <= i < 8 ==> (#[trigger] PinValueArray::from_spec(byte).0@[i] == PinValue::High) == (
            byte & (1u8 << (i as u8)) != 0),
{
    assert forall|i: int| 0 <= i < 8 implies (#[trigger] PinValueArray::from_spec(byte).0@[i]
        == PinValue::High) == (byte & (1u8 << (i as u8)) != 0) by {
        lemma_bit_i(byte, i);
    }
}

/// Pin `i` of the directions made from a byte is an output exactly when bit
/// `i` of the byte is set.
pub proof fn lemma_pin_directions_from_byte(byte: u8)
    ensures
        forall|i: int|
            0 <= i < 8 ==> (#[trigger] PinDirectionArray::from_spec(byte).0@[i]
                == PinDirection::Output) == (byte & (1u8 << (i as u8)) != 0),
{
    assert forall|i: int| 0 <= i < 8 implies (#[trigger] PinDirectionArray::from_spec(byte).0@[i]
        == PinDirection::Output) == (byte & (1u8 << (i as u8)) != 0) by {
        lemma_bit_i(byte, i);
    }
}

/// Bit `i` of the byte made from pin levels is set exactly when pin `i` is
/// high.
pub proof fn lemma_byte_from_pin_values(pins: PinValueArray)
    ensures
        forall|i: int|
            0 <= i < 8 ==> (u8::from_spec(pins) & (1u8 << (i as u8)) != 0) == (
            #[trigger] pins.0@[i] == PinValue::High),
{
    let byte = u8::from_spec(pins);
    lemma_bits_byte_roundtrip(pins.highs());
    assert forall|i: int| 0 <= i < 8 implies (byte & (1u8 << (i as u8)) != 0) == (
    #[trigger] pins.0@[i] == PinValue::High) by {
        lemma_bit_i(byte, i);
        assert(bits_of_byte(byte)[i] == pins.highs()[i]);
    }
}

/// Bit `i` of the byte made from pin directions is set exactly when pin `i`
/// is an output.
pub proof fn lemma_byte_from_pin_directions(pins: PinDirectionArray)
    ensures
        forall|i: int|
            0 <= i < 8 ==> (u8::from_spec(pins) & (1u8 << (i as u8)) != 0) == (
            #[trigger] pins.0@[i] == PinDirection::Output),
{
    let byte = u8::from_spec(pins);
    lemma_bits_byte_roundtrip(pins.outputs());
    assert forall|i: int| 0 <= i < 8 implies (byte & (1u8 << (i as u8)) != 0) == (
    #[trigger] pins.0@[i] == PinDirection::Output) by {
        lemma_bit_i(byte, i);
        assert(bits_of_byte(byte)[i] == pins.outputs()[i]);
    }
}

/// A Set Data Bits command is three bytes: `0x80` for the low pins or `0x82`
/// for the high ones; then a byte whose bit `i` is set exactly when pin `i` is
/// to be high; then a byte whose bit `i` is set exactly when pin `i` is to be
/// an output.
pub proof fn lemma_set_bits_layout(
    range: PinRange,
    value: PinValueArray,
    direction: PinDirectionArray,
)
    ensures
        ({
            let enc = (Command::SetBits { range, value, direction }).encoding();
            &&& enc.len() == 3
            &&& enc[0] == (if range == PinRange::Low {
                0x80u8
            } else {
                0x82u8
            })
            &&& forall|i: int|
                0 <= i < 8 ==> (enc[1] & (1u8 << (i as u8)) != 0) == (#[trigger] value.0@[i]
                    == PinValue::High)
            &&& forall|i: int|
                0 <= i < 8 ==> (enc[2] & (1u8 << (i as u8)) != 0) == (#[trigger] direction.0@[i]
                    == PinDirection::Output)
        }),
{
    lemma_byte_from_pin_values(value);
    lemma_byte_from_pin_directions(direction);
}

/// Setting the pins from a level byte and a direction byte sends both bytes
/// unchanged, after the opcode.
pub proof fn lemma_set_bits_from_bytes(range: PinRange, value: u8, direction: u8)
    ensures
        (Command::SetBits {
            range,
            value: PinValueArray::from_spec(value),
            direction: PinDirectionArray::from_spec(direction),
        }).encoding() == seq![
            if range == PinRange::Low {
                0x80u8
            } else {
                0x82u8
            },
            value,
            direction,
        ],
{
    lemma_byte_pin_values_roundtrip(value);
    lemma_byte_pin_directions_roundtrip(direction);
}

/// A byte-wise read of `length` bytes is answered with exactly `length`
/// bytes; a bit-wise read, a pin read and a wait for I/O with one byte each;
/// the other commands with none.
pub proof fn lemma_response_lengths(options: DataShiftOptions, length: u16, c: Command)
    ensures
        (Command::ReadDataShiftBytes { options, length }).response_len() == length,
        c is ReadDataShiftBits ==> c.response_len() == 1,
        c is ReadBits ==> c.response_len() == 1,
        c is WaitForIo ==> c.response_len() == 1,
        c is WriteDataShiftBits ==> c.response_len() == 0,
        c is WriteDataShiftBytes ==> c.response_len() == 0,
        c is SetBits ==> c.response_len() == 0,
        c is SetLoopback ==> c.response_len() == 0,
        c is SetClockDivisor ==> c.response_len() == 0,
{
}

/// The response length of a list is that of its commands added up: none for
/// the empty list, and adding a command adds its response length.
pub proof fn lemma_total_response_len_push(commands: Seq<Command>, command: Command)
    ensures
        total_response_len(Seq::<Command>::empty()) == 0,
        total_response_len(commands.push(command)) == total_response_len(commands)
            + command.response_len(),
{
    assert(commands.push(command).drop_last() =~= commands);
}

} // verus!
