//! A chain of cascaded chips, addressed as one array.
//!
//! The chips share one chip-select line and form a single shift register:
//! every logical write is a frame of one (address, data) pair per chip. The
//! pair sent first travels furthest, so a frame carries the pair for the
//! last chip first and the pair for chip 0, the one nearest the controller,
//! last.

use vstd::prelude::*;
use crate::error::Error;
use crate::register::{encode, Register};

verus! {

/// The longest chain the driver accepts. The canvas of a chain this long is
/// still addressable with signed 32-bit pixel coordinates.
pub const MAX_DEVICES: usize = 0x0FFF_FFFF;

/// The place of `device`'s pair among the pairs of a frame for a chain of
/// `device_count` chips.
pub open spec fn pair_position(device_count: int, device: int) -> int {
    device_count - 1 - device
}

/// The pair that chip `device` holds in its shift register once the whole of
/// `frame` has been clocked into a chain of `device_count` chips.
pub open spec fn latched(frame: Seq<u8>, device_count: int, device: int) -> (u8, u8) {
    (
        frame[2 * pair_position(device_count, device)],
        frame[2 * pair_position(device_count, device) + 1],
    )
}

/// The frame that hands the pair (`address`, `data`) to every chip.
pub open spec fn broadcast_frame(device_count: int, address: u8, data: u8) -> Seq<u8> {
    Seq::new(
        (2 * device_count) as nat,
        |i: int|
            if i % 2 == 0 {
                address
            } else {
                data
            },
    )
}

/// The frame that hands the pair (`address`, `data`) to chip `index` and the
/// no-op pair (0, 0) to every other chip.
pub open spec fn select_frame(device_count: int, index: int, address: u8, data: u8) -> Seq<u8> {
    Seq::new(
        (2 * device_count) as nat,
        |i: int|
            if i == 2 * pair_position(device_count, index) {
                address
            } else if i == 2 * pair_position(device_count, index) + 1 {
                data
            } else {
                0u8
            },
    )
}

/// The chips of one chain, index 0 nearest the controller.
#[derive(Clone, Copy, Debug)]
pub struct DeviceChain {
    device_count: usize,
}

impl DeviceChain {
    /// The number of chips in the chain.
    pub closed spec fn spec_device_count(&self) -> usize {
        self.device_count
    }

    /// A chain has at least one chip and at most `MAX_DEVICES`.
    pub open spec fn wf(&self) -> bool {
        1 <= self.spec_device_count() <= MAX_DEVICES
    }

    /// Makes a chain of `device_count` chips. A count of zero, or one above
    /// `MAX_DEVICES`, is refused with `InvalidDeviceCount`.
    pub fn new(device_count: usize) -> (chain: Result<DeviceChain, Error>)
        ensures
            1 <= device_count <= MAX_DEVICES ==> chain is Ok && chain->Ok_0.wf()
                && chain->Ok_0.spec_device_count() == device_count,
            !(1 <= device_count <= MAX_DEVICES) ==> chain matches Err(Error::InvalidDeviceCount),
    {
        if device_count == 0 || device_count > MAX_DEVICES {
            Err(Error::InvalidDeviceCount)
        } else {
            Ok(DeviceChain { device_count })
        }
    }

    /// Returns the number of chips in the chain.
    #[verifier::when_used_as_spec(spec_device_count)]
    pub fn device_count(&self) -> (count: usize)
        ensures
            count == self.spec_device_count(),
    {
        self.device_count
    }

    /// Returns the length in bytes of every frame for this chain.
    pub fn frame_len(&self) -> (len: usize)
        requires
            self.wf(),
        ensures
            len == 2 * self.spec_device_count(),
    {
        2 * self.device_count
    }

    /// Builds the frame that writes `value` to `register` on every chip.
    ///
    /// Fails with `InvalidRegisterValue` when the register does not accept
    /// the value.
    pub fn broadcast(&self, register: Register, value: u8) -> (frame: Result<Vec<u8>, Error>)
        requires
            self.wf(),
        ensures
            register.spec_accepts(value) ==> frame is Ok && frame->Ok_0@ == broadcast_frame(
                self.spec_device_count() as int,
                register.spec_addr(),
                value,
            ),
            !register.spec_accepts(value) ==> frame matches Err(Error::InvalidRegisterValue),
    {
        match encode(register, value) {
            Ok((address, data)) => Ok(self.uniform_frame(address, data)),
            Err(e) => Err(e),
        }
    }

    /// Builds the frame that writes `value` to `register` on chip `index`
    /// and sends a no-op to every other chip.
    ///
    /// Fails with `DeviceIndexOutOfRange` when `index` is not below the
    /// number of chips, whatever the register and the value; otherwise with
    /// `InvalidRegisterValue` when the register does not accept the value.
    pub fn select(&self, index: usize, register: Register, value: u8) -> (frame: Result<
        Vec<u8>,
        Error,
    >)
        requires
            self.wf(),
        ensures
            index >= self.spec_device_count() ==> frame matches Err(Error::DeviceIndexOutOfRange),
            index < self.spec_device_count() && !register.spec_accepts(value) ==> frame matches Err(
                Error::InvalidRegisterValue,
            ),
            index < self.spec_device_count() && register.spec_accepts(value) ==> frame is Ok
                && frame->Ok_0@ == select_frame(
                self.spec_device_count() as int,
                index as int,
                register.spec_addr(),
                value,
            ),
    {
        if index >= self.device_count {
            return Err(Error::DeviceIndexOutOfRange);
        }
        match encode(register, value) {
            Ok((address, data)) => Ok(self.addressed_frame(index, address, data)),
            Err(e) => Err(e),
        }
    }

    /// Builds the frame that hands (`address`, `data`) to every chip.
    pub(crate) fn uniform_frame(&self, address: u8, data: u8) -> (frame: Vec<u8>)
        requires
            self.wf(),
        ensures
            frame@ == broadcast_frame(self.spec_device_count() as int, address, data),
    {
        let mut frame: Vec<u8> = Vec::new();
        let mut position: usize = 0;
        while position < self.device_count
            invariant
                position <= self.device_count,
                frame@.len() == 2 * position,
                forall|i: int|
                    0 <= i < 2 * position ==> frame@[i] == if i % 2 == 0 {
                        address
                    } else {
                        data
                    },
            decreases self.device_count - position,
        {
            frame.push(address);
            frame.push(data);
            position += 1;
        }
        frame
    }

    /// Builds the frame that hands (`address`, `data`) to chip `index` and
    /// the no-op pair to the others.
    fn addressed_frame(&self, index: usize, address: u8, data: u8) -> (frame: Vec<u8>)
        requires
            self.wf(),
            index < self.spec_device_count(),
        ensures
            frame@ == select_frame(self.spec_device_count() as int, index as int, address, data),
    {
        let target: usize = self.device_count - 1 - index;
        let mut frame: Vec<u8> = Vec::new();
        let mut position: usize = 0;
        while position < self.device_count
            invariant
                position <= self.device_count,
                target == pair_position(self.device_count as int, index as int),
                frame@.len() == 2 * position,
                forall|i: int|
                    0 <= i < 2 * position ==> frame@[i] == if i == 2 * target {
                        address
                    } else if i == 2 * target + 1 {
                        data
                    } else {
                        0u8
                    },
            decreases self.device_count - position,
        {
            if position == target {
                frame.push(address);
                frame.push(data);
            } else {
                frame.push(0);
                frame.push(0);
            }
            position += 1;
        }
        frame
    }
}

/// Once a broadcast frame has been clocked in, every chip holds the pair.
pub proof fn broadcast_reaches_every_device(
    device_count: int,
    address: u8,
    data: u8,
    device: int,
)
    requires
        0 <= device < device_count,
    ensures
        broadcast_frame(device_count, address, data).len() == 2 * device_count,
        latched(broadcast_frame(device_count, address, data), device_count, device) == (
            address,
            data,
        ),
{
}

/// Once a select frame has been clocked in, the chosen chip holds the pair
/// and every other chip holds the no-op pair.
pub proof fn select_reaches_one_device(
    device_count: int,
    index: int,
    address: u8,
    data: u8,
    device: int,
)
    requires
        0 <= index < device_count,
        0 <= device < device_count,
    ensures
        select_frame(device_count, index, address, data).len() == 2 * device_count,
        latched(select_frame(device_count, index, address, data), device_count, device) == if device
            == index {
            (address, data)
        } else {
            (0u8, 0u8)
        },
{
}

} // verus!
