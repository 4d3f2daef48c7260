//! The failures the driver reports, and the broad class each belongs to.

use vstd::prelude::*;

verus! {

/// The broad class of a failure.
#[derive(Clone, Copy, Debug, PartialEq, Eq, Structural)]
pub enum ErrorKind {
    /// The driver was set up with values it cannot work with.
    Configuration,
    /// A coordinate or an index lies outside the display.
    Bounds,
    /// An operation was attempted before the display was ready for it.
    State,
    /// The bus reported a fault.
    Transport,
}

/// Everything that can go wrong in the driver.
#[derive(Clone, Copy, Debug, PartialEq, Eq, Structural)]
pub enum Error {
    /// The number of devices is zero, too large, or differs from the
    /// geometry of the framebuffer it is paired with.
    InvalidDeviceCount,
    /// A register was given a value outside the range it accepts.
    InvalidRegisterValue,
    /// A device index is not below the number of devices in the chain.
    DeviceIndexOutOfRange,
    /// A pixel coordinate or a digit lies outside the canvas.
    CoordinateOutOfBounds,
    /// A pixel or flush operation was called before the display was ready.
    DriverNotInitialized,
    /// The bus failed to carry a frame.
    TransportError,
}

impl Error {
    /// The class of `self`.
    pub open spec fn spec_kind(self) -> ErrorKind {
        match self {
            Error::InvalidDeviceCount => ErrorKind::Configuration,
            Error::InvalidRegisterValue => ErrorKind::Configuration,
            Error::DeviceIndexOutOfRange => ErrorKind::Bounds,
            Error::CoordinateOutOfBounds => ErrorKind::Bounds,
            Error::DriverNotInitialized => ErrorKind::State,
            Error::TransportError => ErrorKind::Transport,
        }
    }

    /// Returns the class of this failure.
    #[verifier::when_used_as_spec(spec_kind)]
    pub fn kind(self) -> (kind: ErrorKind)
        ensures
            kind == self.spec_kind(),
    {
        match self {
            Error::InvalidDeviceCount => ErrorKind::Configuration,
            Error::InvalidRegisterValue => ErrorKind::Configuration,
            Error::DeviceIndexOutOfRange => ErrorKind::Bounds,
            Error::CoordinateOutOfBounds => ErrorKind::Bounds,
            Error::DriverNotInitialized => ErrorKind::State,
            Error::TransportError => ErrorKind::Transport,
        }
    }
}

} // verus!
