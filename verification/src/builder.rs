//! Simple builders for MPSSE commands.
use crate::command::{
    all_encodable, encode_all, BitDirection, ClockDirection, Command, CommandList,
    DataShiftOptions, PinDirectionArray, PinRange, PinValue, PinValueArray,
};
use vstd::prelude::*;
use vstd::std_specs::convert::IntoSpec;

verus! {

/// Builder for MPSSE commands.
#[derive(Debug)]
pub struct Builder {
    commands: Vec<Command>,
}

impl View for Builder {
    type V = Seq<Command>;

    /// The commands so far, in the order they were added.
    closed spec fn view(&self) -> Seq<Command> {
        self.commands@
    }
}

impl Builder {
    /// Create a new command builder with no commands.
    pub fn new() -> (b: Self)
        ensures
            b@ == Seq::<Command>::empty(),
    {
        Builder { commands: Vec::new() }
    }

    /// Adds `command` after the commands so far.
    fn push(self, command: Command) -> (b: Builder)
        ensures
            b@ == self@.push(command),
    {
        let mut commands = self.commands;
        commands.push(command);
        Builder { commands }
    }

    /// Write bytes of data, one bit at a time, on a single pin.
    ///
    /// This will generate a Data Shifting Command with the appropriate bits set
    /// to write to TDO with the appropriate parameters: by default on the
    /// rising edge, most significant bit first.
    ///
    /// * `data` - The data to write out.
    pub fn write_data(self, data: Vec<u8>) -> (w: WriteBuilder)
        ensures
            w.parent() == self@,
            w.data() == data,
            w.clock_direction() == ClockDirection::Rising,
            w.bit_direction() == BitDirection::MsbFirst,
    {
        WriteBuilder {
            parent: self,
            data,
            clock_direction: ClockDirection::Rising,
            bit_direction: BitDirection::MsbFirst,
        }
    }

    /// Read bytes of data, one bit at a time, on a single pin.
    ///
    /// This will generate a Data Shifting Command with the appropriate bits set
    /// to read from TDI with the appropriate parameters: by default on the
    /// rising edge, most significant bit first.
    ///
    /// * `length` - The number of bytes to read out.
    pub fn read_data(self, length: u16) -> (r: ReadBuilder)
        ensures
            r.parent() == self@,
            r.length() == length,
            r.clock_direction() == ClockDirection::Rising,
            r.bit_direction() == BitDirection::MsbFirst,
    {
        ReadBuilder {
            parent: self,
            length,
            clock_direction: ClockDirection::Rising,
            bit_direction: BitDirection::MsbFirst,
        }
    }

    /// Set the pins of the interface directly to the given values, and
    /// configure their direction.
    ///
    /// This will generate a Set Data Bits command of the appropriate type
    ///
    /// * `range` - Set either the high or low byte to be set
    /// * `direction` - The direction to set the pins, as either inputs or outputs.
    /// * `value` - The value to set the pins to, high or low (only applies to output pins)
    pub fn set_pins<D, V>(self, range: PinRange, direction: D, value: V) -> (s: SetPinsBuilder) where
        D: Into<PinDirectionArray>,
        V: Into<PinValueArray>,

        ensures
            s.parent() == self@,
            s.range() == range,
            D::obeys_into_spec() ==> s.direction() == direction.into_spec(),
            V::obeys_into_spec() ==> s.value() == value.into_spec(),
    {
        SetPinsBuilder { parent: self, range, direction: direction.into(), value: value.into() }
    }

    /// Read the value of input pins of the interface directly.
    ///
    /// This will generate a Read Data Bits command of the appropriate type
    ///
    /// * `range` - Read either the high or low byte to be set
    pub fn read_pins(self, range: PinRange) -> (r: ReadPinsBuilder)
        ensures
            r.parent() == self@,
            r.range() == range,
    {
        ReadPinsBuilder { parent: self, range }
    }

    /// Set the clock divisor of the interface directly.
    ///
    /// This will generate a Set Clock Divisor command with the given divisor.
    ///
    /// * `divisor` - The clock divisor.
    pub fn set_divisor(self, divisor: u16) -> (s: SetFrequencyBuilder)
        ensures
            s.parent() == self@,
            s.divisor() == divisor,
    {
        SetFrequencyBuilder { parent: self, divisor }
    }

    /// Wait for IO on pin 1.
    ///
    /// This will send a Wait On I/O command
    ///
    /// * `value` - Whether to wait for a High or Low state on the pin.
    pub fn wait_for_io(self, value: PinValue) -> (w: WaitForIoBuilder)
        ensures
            w.parent() == self@,
            w.value() == value,
    {
        WaitForIoBuilder { parent: self, value }
    }

    /// Build the current command list into a sequence of bytes.
    pub fn build(self) -> (bytes: Vec<u8>)
        requires
            all_encodable(self@),
        ensures
            bytes@ == encode_all(self@),
    {
        CommandList(self.commands).into_bytes()
    }
}


/// Build a Data Shifting Command set to read bytes.
#[derive(Debug)]
pub struct ReadBuilder {
    parent: Builder,
    length: u16,
    clock_direction: ClockDirection,
    bit_direction: BitDirection,
}

impl ReadBuilder {
    /// The commands before this one.
    pub closed spec fn parent(&self) -> Seq<Command> {
        self.parent@
    }

    /// The number of bytes to read.
    pub closed spec fn length(&self) -> u16 {
        self.length
    }

    /// The clock edge on which the bits are read.
    pub closed spec fn clock_direction(&self) -> ClockDirection {
        self.clock_direction
    }

    /// The order in which the bits are read.
    pub closed spec fn bit_direction(&self) -> BitDirection {
        self.bit_direction
    }

    /// The command that this builder adds.
    pub open spec fn command(&self) -> Command {
        Command::ReadDataShiftBytes {
            options: DataShiftOptions {
                clock_direction: self.clock_direction(),
                bit_direction: self.bit_direction(),
            },
            length: self.length(),
        }
    }

    /// Set this command to read the bits on a specific edge of the clock.
    ///
    /// By default, the ReadBuilder will build the command with the clock
    /// direction set Rising.
    pub fn with_clock_direction(self, direction: ClockDirection) -> (b: Self)
        ensures
            b.parent() == self.parent(),
            b.length() == self.length(),
            b.clock_direction() == direction,
            b.bit_direction() == self.bit_direction(),
    {
        ReadBuilder { clock_direction: direction, ..self }
    }

    /// Set this command to read the bits in a specific direction.
    ///
    /// By default, the ReadBuilder will build the command with the bit direction
    /// set MsbFirst.
    pub fn with_bit_direction(self, direction: BitDirection) -> (b: Self)
        ensures
            b.parent() == self.parent(),
            b.length() == self.length(),
            b.clock_direction() == self.clock_direction(),
            b.bit_direction() == direction,
    {
        ReadBuilder { bit_direction: direction, ..self }
    }

    /// Commit this command to the parent Builder.
    fn commit(self) -> (b: Builder)
        ensures
            b@ == self.parent().push(self.command()),
    {
        let command = Command::ReadDataShiftBytes {
            options: DataShiftOptions {
                clock_direction: self.clock_direction,
                bit_direction: self.bit_direction,
            },
            length: self.length,
        };
        self.parent.push(command)
    }

    /// Same as commit, but more readable in a chain.
    pub fn and_then(self) -> (b: Builder)
        ensures
            b@ == self.parent().push(
                Command::ReadDataShiftBytes {
                    options: DataShiftOptions {
                        clock_direction: self.clock_direction(),
                        bit_direction: self.bit_direction(),
                    },
                    length: self.length(),
                },
            ),
    {
        self.commit()
    }

    /// Commit this command to the parent Builder, then get the entire command
    /// list as a byte sequence.
    pub fn build(self) -> (bytes: Vec<u8>)
        requires
            all_encodable(self.parent().push(self.command())),
        ensures
            bytes@ == encode_all(
                self.parent().push(
                    Command::ReadDataShiftBytes {
                        options: DataShiftOptions {
                            clock_direction: self.clock_direction(),
                            bit_direction: self.bit_direction(),
                        },
                        length: self.length(),
                    },
                ),
            ),
    {
        self.commit().build()
    }
}

/// Build a Data Shifting Command set to write bytes.
#[derive(Debug)]
pub struct WriteBuilder {
    parent: Builder,
    data: Vec<u8>,
    clock_direction: ClockDirection,
    bit_direction: BitDirection,
}

impl WriteBuilder {
    /// The commands before this one.
    pub closed spec fn parent(&self) -> Seq<Command> {
        self.parent@
    }

    /// The bytes to write.
    pub closed spec fn data(&self) -> Vec<u8> {
        self.data
    }

    /// The clock edge on which the bits are written.
    pub closed spec fn clock_direction(&self) -> ClockDirection {
        self.clock_direction
    }

    /// The order in which the bits are written.
    pub closed spec fn bit_direction(&self) -> BitDirection {
        self.bit_direction
    }

    /// The command that this builder adds.
    pub open spec fn command(&self) -> Command {
        Command::WriteDataShiftBytes {
            options: DataShiftOptions {
                clock_direction: self.clock_direction(),
                bit_direction: self.bit_direction(),
            },
            bytes: self.data(),
        }
    }

    /// Set this command to write the bits on a specific edge of the clock.
    ///
    /// By default, the WriteBuilder will build the command with the clock
    /// direction set Rising.
    pub fn with_clock_direction(self, direction: ClockDirection) -> (b: Self)
        ensures
            b.parent() == self.parent(),
            b.data() == self.data(),
            b.clock_direction() == direction,
            b.bit_direction() == self.bit_direction(),
    {
        WriteBuilder { clock_direction: direction, ..self }
    }

    /// Set this command to write the bits in a specific direction.
    ///
    /// By default, the WriteBuilder will build the command with the bit direction
    /// set MsbFirst.
    pub fn with_bit_direction(self, direction: BitDirection) -> (b: Self)
        ensures
            b.parent() == self.parent(),
            b.data() == self.data(),
            b.clock_direction() == self.clock_direction(),
            b.bit_direction() == direction,
    {
        WriteBuilder { bit_direction: direction, ..self }
    }

    /// Commit this command to the parent Builder.
    fn commit(self) -> (b: Builder)
        ensures
            b@ == self.parent().push(self.command()),
    {
        let command = Command::WriteDataShiftBytes {
            options: DataShiftOptions {
                clock_direction: self.clock_direction,
                bit_direction: self.bit_direction,
            },
            bytes: self.data,
        };
        self.parent.push(command)
    }

    /// Same as commit, but more readable in a chain.
    pub fn and_then(self) -> (b: Builder)
        ensures
            b@ == self.parent().push(
                Command::WriteDataShiftBytes {
                    options: DataShiftOptions {
                        clock_direction: self.clock_direction(),
                        bit_direction: self.bit_direction(),
                    },
                    bytes: self.data(),
                },
            ),
    {
        self.commit()
    }

    /// Commit this command to the parent Builder, then get the entire command
    /// list as a byte sequence.
    pub fn build(self) -> (bytes: Vec<u8>)
        requires
            all_encodable(self.parent().push(self.command())),
        ensures
            bytes@ == encode_all(
                self.parent().push(
                    Command::WriteDataShiftBytes {
                        options: DataShiftOptions {
                            clock_direction: self.clock_direction(),
                            bit_direction: self.bit_direction(),
                        },
                        bytes: self.data(),
                    },
                ),
            ),
    {
        self.commit().build()
    }
}

/// Build a Set Pins command
#[derive(Debug)]
pub struct SetPinsBuilder {
    parent: Builder,
    range: PinRange,
    direction: PinDirectionArray,
    value: PinValueArray,
}

impl SetPinsBuilder {
    /// The commands before this one.
    pub closed spec fn parent(&self) -> Seq<Command> {
        self.parent@
    }

    /// The byte of pins that is set.
    pub closed spec fn range(&self) -> PinRange {
        self.range
    }

    /// The directions the pins are set to.
    pub closed spec fn direction(&self) -> PinDirectionArray {
        self.direction
    }

    /// The levels the pins are set to.
    pub closed spec fn value(&self) -> PinValueArray {
        self.value
    }

    /// The command that this builder adds.
    pub open spec fn command(&self) -> Command {
        Command::SetBits { range: self.range(), value: self.value(), direction: self.direction() }
    }

    /// Commit this command to the parent Builder.
    fn commit(self) -> (b: Builder)
        ensures
            b@ == self.parent().push(self.command()),
    {
        let command = Command::SetBits { range: self.range, value: self.value, direction: self.direction };
        self.parent.push(command)
    }

    /// Same as commit, but more readable in a chain.
    pub fn and_then(self) -> (b: Builder)
        ensures
            b@ == self.parent().push(
                Command::SetBits {
                    range: self.range(),
                    value: self.value(),
                    direction: self.direction(),
                },
            ),
    {
        self.commit()
    }

    /// Commit this command to the parent Builder, then get the entire command
    /// list as a byte sequence.
    pub fn build(self) -> (bytes: Vec<u8>)
        requires
            all_encodable(self.parent().push(self.command())),
        ensures
            bytes@ == encode_all(self.parent().push(
                Command::SetBits {
                    range: self.range(),
                    value: self.value(),
                    direction: self.direction(),
                },
            )),
    {
        self.commit().build()
    }
}

/// Build a Set Divisor command.
#[derive(Debug)]
pub struct SetFrequencyBuilder {
    parent: Builder,
    divisor: u16,
}

impl SetFrequencyBuilder {
    /// The commands before this one.
    pub closed spec fn parent(&self) -> Seq<Command> {
        self.parent@
    }

    /// The clock divisor.
    pub closed spec fn divisor(&self) -> u16 {
        self.divisor
    }

    /// The command that this builder adds.
    pub open spec fn command(&self) -> Command {
        Command::SetClockDivisor { divisor: self.divisor() }
    }

    /// Commit this command to the parent Builder.
    fn commit(self) -> (b: Builder)
        ensures
            b@ == self.parent().push(self.command()),
    {
        let command = Command::SetClockDivisor { divisor: self.divisor };
        self.parent.push(command)
    }

    /// Same as commit, but more readable in a chain.
    pub fn and_then(self) -> (b: Builder)
        ensures
            b@ == self.parent().push(
                Command::SetClockDivisor { divisor: self.divisor() },
            ),
    {
        self.commit()
    }

    /// Commit this command to the parent Builder, then get the entire command
    /// list as a byte sequence.
    pub fn build(self) -> (bytes: Vec<u8>)
        requires
            all_encodable(self.parent().push(self.command())),
        ensures
            bytes@ == encode_all(self.parent().push(
                Command::SetClockDivisor { divisor: self.divisor() },
            )),
    {
        self.commit().build()
    }
}

/// Build a Wait On I/O command.
#[derive(Debug)]
pub struct WaitForIoBuilder {
    parent: Builder,
    value: PinValue,
}

impl WaitForIoBuilder {
    /// The commands before this one.
    pub closed spec fn parent(&self) -> Seq<Command> {
        self.parent@
    }

    /// The level waited for.
    pub closed spec fn value(&self) -> PinValue {
        self.value
    }

    /// The command that this builder adds.
    pub open spec fn command(&self) -> Command {
        Command::WaitForIo { value: self.value() }
    }

    /// Commit this command to the parent Builder.
    fn commit(self) -> (b: Builder)
        ensures
            b@ == self.parent().push(self.command()),
    {
        let command = Command::WaitForIo { value: self.value };
        self.parent.push(command)
    }

    /// Same as commit, but more readable in a chain.
    pub fn and_then(self) -> (b: Builder)
        ensures
            b@ == self.parent().push(
                Command::WaitForIo { value: self.value() },
            ),
    {
        self.commit()
    }

    /// Commit this command to the parent Builder, then get the entire command
    /// list as a byte sequence.
    pub fn build(self) -> (bytes: Vec<u8>)
        requires
            all_encodable(self.parent().push(self.command())),
        ensures
            bytes@ == encode_all(self.parent().push(
                Command::WaitForIo { value: self.value() },
            )),
    {
        self.commit().build()
    }
}

/// Build a Read Pins command.
#[derive(Debug)]
pub struct ReadPinsBuilder {
    parent: Builder,
    range: PinRange,
}

impl ReadPinsBuilder {
    /// The commands before this one.
    pub closed spec fn parent(&self) -> Seq<Command> {
        self.parent@
    }

    /// The byte of pins that is read.
    pub closed spec fn range(&self) -> PinRange {
        self.range
    }

    /// The command that this builder adds.
    pub open spec fn command(&self) -> Command {
        Command::ReadBits { range: self.range() }
    }

    /// Commit this command to the parent Builder.
    fn commit(self) -> (b: Builder)
        ensures
            b@ == self.parent().push(self.command()),
    {
        let command = Command::ReadBits { range: self.range };
        self.parent.push(command)
    }

    /// Same as commit, but more readable in a chain.
    pub fn and_then(self) -> (b: Builder)
        ensures
            b@ == self.parent().push(
                Command::ReadBits { range: self.range() },
            ),
    {
        self.commit()
    }

    /// Commit this command to the parent Builder, then get the entire command
    /// list as a byte sequence.
    pub fn build(self) -> (bytes: Vec<u8>)
        requires
            all_encodable(self.parent().push(self.command())),
        ensures
            bytes@ == encode_all(self.parent().push(
                Command::ReadBits { range: self.range() },
            )),
    {
        self.commit().build()
    }
}

} // verus!
