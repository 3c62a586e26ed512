//! A builder for the command streams of FTDI's Multi-Protocol Synchronous
//! Serial Engine (MPSSE).
//!
//! Each builder step appends one command; `build` turns the whole list into
//! the bytes that go to the device, in order.
pub mod builder;
pub mod command;

pub use command::{
    BitDirection, ClockDirection, PinDirection, PinDirectionArray, PinRange, PinValue,
    PinValueArray,
};

pub use builder::Builder;
