//! The MAX7219 register map and the encoding of one register write as the
//! two bytes a chip shifts in: the address first, the data second.

use vstd::prelude::*;
use crate::error::Error;

verus! {

/// The largest value the intensity register accepts.
pub const MAX_INTENSITY: u8 = 15;

/// The largest value the scan-limit register accepts.
pub const MAX_SCAN_LIMIT: u8 = 7;

/// The number of digit registers, and so of rows, in one chip.
pub const DIGITS: u8 = 8;

/// A register of one MAX7219.
#[derive(Clone, Copy, Debug, PartialEq, Eq, Structural)]
pub enum Register {
    /// Writes nothing; a chip that receives it only passes data along.
    NoOp,
    /// Row 0 of the 8x8 block.
    Digit0,
    /// Row 1 of the 8x8 block.
    Digit1,
    /// Row 2 of the 8x8 block.
    Digit2,
    /// Row 3 of the 8x8 block.
    Digit3,
    /// Row 4 of the 8x8 block.
    Digit4,
    /// Row 5 of the 8x8 block.
    Digit5,
    /// Row 6 of the 8x8 block.
    Digit6,
    /// Row 7 of the 8x8 block.
    Digit7,
    /// Which digits are BCD-decoded; 0 leaves every digit raw.
    DecodeMode,
    /// Brightness, 0 to 15.
    Intensity,
    /// The highest digit that is scanned, 0 to 7.
    ScanLimit,
    /// 0 puts the chip in shutdown, 1 in normal operation.
    Shutdown,
    /// 1 lights every LED regardless of the digit registers.
    DisplayTest,
}

impl Register {
    /// The address byte of `self` in the register map.
    pub open spec fn spec_addr(self) -> u8 {
        match self {
            Register::NoOp => 0x00,
            Register::Digit0 => 0x01,
            Register::Digit1 => 0x02,
            Register::Digit2 => 0x03,
            Register::Digit3 => 0x04,
            Register::Digit4 => 0x05,
            Register::Digit5 => 0x06,
            Register::Digit6 => 0x07,
            Register::Digit7 => 0x08,
            Register::DecodeMode => 0x09,
            Register::Intensity => 0x0A,
            Register::ScanLimit => 0x0B,
            Register::Shutdown => 0x0C,
            Register::DisplayTest => 0x0F,
        }
    }

    /// Returns the address byte of this register.
    #[verifier::when_used_as_spec(spec_addr)]
    pub fn addr(self) -> (address: u8)
        ensures
            address == self.spec_addr(),
    {
        match self {
            Register::NoOp => 0x00,
            Register::Digit0 => 0x01,
            Register::Digit1 => 0x02,
            Register::Digit2 => 0x03,
            Register::Digit3 => 0x04,
            Register::Digit4 => 0x05,
            Register::Digit5 => 0x06,
            Register::Digit6 => 0x07,
            Register::Digit7 => 0x08,
            Register::DecodeMode => 0x09,
            Register::Intensity => 0x0A,
            Register::ScanLimit => 0x0B,
            Register::Shutdown => 0x0C,
            Register::DisplayTest => 0x0F,
        }
    }

    /// Whether `value` lies in the range `self` accepts. Only intensity and
    /// scan limit have a range narrower than a byte.
    pub open spec fn spec_accepts(self, value: u8) -> bool {
        match self {
            Register::Intensity => value <= MAX_INTENSITY,
            Register::ScanLimit => value <= MAX_SCAN_LIMIT,
            _ => true,
        }
    }

    /// Tells whether `value` lies in the range this register accepts.
    #[verifier::when_used_as_spec(spec_accepts)]
    pub fn accepts(self, value: u8) -> (accepted: bool)
        ensures
            accepted == self.spec_accepts(value),
    {
        match self {
            Register::Intensity => value <= MAX_INTENSITY,
            Register::ScanLimit => value <= MAX_SCAN_LIMIT,
            _ => true,
        }
    }

    /// The register that holds row `digit`, for `digit` in 0..8.
    pub open spec fn of_digit(digit: int) -> Register {
        if digit == 0 {
            Register::Digit0
        } else if digit == 1 {
            Register::Digit1
        } else if digit == 2 {
            Register::Digit2
        } else if digit == 3 {
            Register::Digit3
        } else if digit == 4 {
            Register::Digit4
        } else if digit == 5 {
            Register::Digit5
        } else if digit == 6 {
            Register::Digit6
        } else {
            Register::Digit7
        }
    }

    /// Returns the register that holds row `digit`, or
    /// `CoordinateOutOfBounds` when there is no such row.
    pub fn digit(digit: u8) -> (register: Result<Register, Error>)
        ensures
            digit < DIGITS ==> register == Ok::<Register, Error>(Register::of_digit(digit as int)),
            digit >= DIGITS ==> register == Err::<Register, Error>(Error::CoordinateOutOfBounds),
    {
        match digit {
            0 => Ok(Register::Digit0),
            1 => Ok(Register::Digit1),
            2 => Ok(Register::Digit2),
            3 => Ok(Register::Digit3),
            4 => Ok(Register::Digit4),
            5 => Ok(Register::Digit5),
            6 => Ok(Register::Digit6),
            7 => Ok(Register::Digit7),
            _ => Err(Error::CoordinateOutOfBounds),
        }
    }
}

/// What encoding a write of `value` to `register` gives: the address and
/// data bytes, or the refusal of a value outside the register's range.
pub open spec fn encoding(register: Register, value: u8) -> Result<(u8, u8), Error> {
    if register.spec_accepts(value) {
        Ok((register.spec_addr(), value))
    } else {
        Err(Error::InvalidRegisterValue)
    }
}

/// Encodes a write of `value` to `register` as an (address, data) pair.
///
/// A value outside the register's range is refused with
/// `InvalidRegisterValue`; it is never clamped.
pub fn encode(register: Register, value: u8) -> (pair: Result<(u8, u8), Error>)
    ensures
        pair == encoding(register, value),
{
    if register.accepts(value) {
        Ok((register.addr(), value))
    } else {
        Err(Error::InvalidRegisterValue)
    }
}

/// The digit registers occupy addresses 1 to 8, in row order, and accept
/// every byte.
pub proof fn digit_addresses(digit: int)
    requires
        0 <= digit < DIGITS,
    ensures
        Register::of_digit(digit).spec_addr() == digit + 1,
        forall|value: u8| Register::of_digit(digit).spec_accepts(value),
{
}

} // verus!
