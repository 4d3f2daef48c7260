//! The life of the driver, from power-up to a configured chain.
//!
//! A chain starts `Uninitialized`. Initialization sends five broadcast
//! frames: it takes every chip out of shutdown and sets decode mode, display
//! test, scan limit and intensity to their defaults. Once the bus has
//! carried all five, the chain is `Initialized`; joined to a framebuffer of
//! the same geometry it is `Ready` for pixel and flush operations.

use vstd::prelude::*;
use crate::chain::{broadcast_frame, DeviceChain, MAX_DEVICES};
use crate::chip::{chain_after, chips_wf, init_configures_every_chip};
use crate::error::Error;
use crate::register::Register;
use crate::transport::{frames_view, Transmission};

verus! {

/// The shutdown-register value that puts a chip in normal operation.
pub const NORMAL_OPERATION: u8 = 0x01;

/// The decode mode set at initialization: no digit is BCD-decoded.
pub const DEFAULT_DECODE_MODE: u8 = 0x00;

/// The display-test value set at initialization: test mode off.
pub const DEFAULT_DISPLAY_TEST: u8 = 0x00;

/// The scan limit set at initialization: all eight digits are scanned.
pub const DEFAULT_SCAN_LIMIT: u8 = 0x07;

/// The intensity set at initialization: the middle of the range.
pub const DEFAULT_INTENSITY: u8 = 0x08;

/// How far the driver has come.
#[derive(Clone, Copy, Debug, PartialEq, Eq, Structural)]
pub enum Lifecycle {
    /// Nothing is known of the chips' configuration.
    Uninitialized,
    /// The chips were configured; no framebuffer is attached.
    Initialized,
    /// The chips were configured and a framebuffer of their geometry is
    /// attached: pixel and flush operations are accepted.
    Ready,
}

/// The frames that initialization sends to a chain of `device_count` chips,
/// in order.
pub open spec fn init_frames(device_count: int) -> Seq<Seq<u8>> {
    seq![
        broadcast_frame(device_count, Register::Shutdown.spec_addr(), NORMAL_OPERATION),
        broadcast_frame(device_count, Register::DecodeMode.spec_addr(), DEFAULT_DECODE_MODE),
        broadcast_frame(device_count, Register::DisplayTest.spec_addr(), DEFAULT_DISPLAY_TEST),
        broadcast_frame(device_count, Register::ScanLimit.spec_addr(), DEFAULT_SCAN_LIMIT),
        broadcast_frame(device_count, Register::Intensity.spec_addr(), DEFAULT_INTENSITY),
    ]
}

/// What reporting `transmission` as the initialization of a chain of
/// `device_count` chips in state `before` leads to: the driver's answer and
/// its new state.
///
/// Only the delivery of exactly the initialization frames initializes the
/// chain. A fault while sending them leaves the chips' configuration
/// unknown. Anything else, a transmission still under way or one of other
/// frames, is refused and changes nothing.
pub open spec fn init_completion(
    device_count: int,
    before: Lifecycle,
    transmission: Transmission,
) -> (Result<(), Error>, Lifecycle) {
    if transmission.frames() != init_frames(device_count) || transmission.pending() {
        (Err(Error::DriverNotInitialized), before)
    } else if transmission.spec_faulted() {
        (Err(Error::TransportError), Lifecycle::Uninitialized)
    } else {
        (Ok(()), Lifecycle::Initialized)
    }
}

/// The driver of one chain: its chips and whether they were configured.
#[derive(Debug)]
pub struct Max7219 {
    chain: DeviceChain,
    initialized: bool,
}

impl Max7219 {
    /// The chips that the driver addresses.
    pub closed spec fn spec_chain(&self) -> DeviceChain {
        self.chain
    }

    /// The number of chips in the chain.
    pub open spec fn spec_device_count(&self) -> usize {
        self.spec_chain().spec_device_count()
    }

    /// `Initialized` once initialization was delivered, `Uninitialized`
    /// before.
    pub closed spec fn spec_lifecycle(&self) -> Lifecycle {
        if self.initialized {
            Lifecycle::Initialized
        } else {
            Lifecycle::Uninitialized
        }
    }

    /// The chain is well formed; a driver on its own is never `Ready`.
    pub open spec fn wf(&self) -> bool {
        &&& self.spec_chain().wf()
        &&& self.spec_lifecycle() != Lifecycle::Ready
    }

    /// Makes the driver of a chain of `device_count` chips, not yet
    /// initialized. A count of zero, or one above `MAX_DEVICES`, is refused
    /// with `InvalidDeviceCount`.
    pub fn new(device_count: usize) -> (driver: Result<Max7219, Error>)
        ensures
            1 <= device_count <= MAX_DEVICES ==> driver is Ok && driver->Ok_0.wf()
                && driver->Ok_0.spec_device_count() == device_count
                && driver->Ok_0.spec_lifecycle() == Lifecycle::Uninitialized,
            !(1 <= device_count <= MAX_DEVICES) ==> driver matches Err(Error::InvalidDeviceCount),
    {
        match DeviceChain::new(device_count) {
            Ok(chain) => Ok(Max7219 { chain, initialized: false }),
            Err(e) => Err(e),
        }
    }

    /// Returns the chips that the driver addresses.
    #[verifier::when_used_as_spec(spec_chain)]
    pub fn chain(&self) -> (chain: DeviceChain)
        ensures
            chain == self.spec_chain(),
    {
        self.chain
    }

    /// Returns the number of chips in the chain.
    #[verifier::when_used_as_spec(spec_device_count)]
    pub fn device_count(&self) -> (count: usize)
        ensures
            count == self.spec_device_count(),
    {
        self.chain.device_count()
    }

    /// Returns how far the driver has come.
    #[verifier::when_used_as_spec(spec_lifecycle)]
    pub fn lifecycle(&self) -> (lifecycle: Lifecycle)
        ensures
            lifecycle == self.spec_lifecycle(),
    {
        if self.initialized {
            Lifecycle::Initialized
        } else {
            Lifecycle::Uninitialized
        }
    }

    /// Returns the frames that initialize the chain, ready to be sent.
    ///
    /// The driver's state changes only when the finished transmission is
    /// reported with `complete_init`.
    pub fn init(&self) -> (transmission: Transmission)
        requires
            self.wf(),
        ensures
            transmission.wf(),
            transmission.fresh(),
            transmission.frames() == init_frames(self.spec_device_count() as int),
            transmission.spec_frame_len() == 2 * self.spec_device_count(),
    {
        let frames = self.init_frame_list();
        Transmission::new(self.chain.frame_len(), frames)
    }

    /// Reports how the transmission that `init` handed out went, and moves
    /// the driver to its next state.
    pub fn complete_init(&mut self, transmission: &Transmission) -> (done: Result<(), Error>)
        requires
            old(self).wf(),
            transmission.wf(),
        ensures
            final(self).wf(),
            final(self).spec_chain() == old(self).spec_chain(),
            (done, final(self).spec_lifecycle()) == init_completion(
                old(self).spec_device_count() as int,
                old(self).spec_lifecycle(),
                *transmission,
            ),
    {
        let frames = self.init_frame_list();
        if !transmission.carries(&frames) {
            return Err(Error::DriverNotInitialized);
        }
        match transmission.result() {
            None => Err(Error::DriverNotInitialized),
            Some(Err(e)) => {
                self.initialized = false;
                Err(e)
            },
            Some(Ok(())) => {
                self.initialized = true;
                Ok(())
            },
        }
    }

    /// Returns the frame that sets the brightness of every chip to
    /// `intensity`, ready to be sent, or fails with `InvalidRegisterValue`
    /// when `intensity` is above 15.
    pub fn set_intensity(&self, intensity: u8) -> (transmission: Result<Transmission, Error>)
        requires
            self.wf(),
        ensures
            Register::Intensity.spec_accepts(intensity) ==> transmission is Ok
                && transmission->Ok_0.wf() && transmission->Ok_0.fresh()
                && transmission->Ok_0.spec_frame_len() == 2 * self.spec_device_count()
                && transmission->Ok_0.frames() == seq![
                broadcast_frame(
                    self.spec_device_count() as int,
                    Register::Intensity.spec_addr(),
                    intensity,
                ),
            ],
            !Register::Intensity.spec_accepts(intensity) ==> transmission matches Err(
                Error::InvalidRegisterValue,
            ),
    {
        match self.chain.broadcast(Register::Intensity, intensity) {
            Ok(frame) => {
                let mut frames: Vec<Vec<u8>> = Vec::new();
                frames.push(frame);
                let transmission = Transmission::new(self.chain.frame_len(), frames);
                proof {
                    assert(transmission.frames() =~= seq![
                        broadcast_frame(
                            self.spec_device_count() as int,
                            Register::Intensity.spec_addr(),
                            intensity,
                        ),
                    ]);
                }
                Ok(transmission)
            },
            Err(e) => Err(e),
        }
    }

    /// Builds the frames of initialization.
    fn init_frame_list(&self) -> (frames: Vec<Vec<u8>>)
        requires
            self.wf(),
        ensures
            frames_view(frames@) == init_frames(self.spec_device_count() as int),
            forall|i: int|
                0 <= i < frames@.len() ==> (#[trigger] frames@[i])@.len() == 2
                    * self.spec_device_count(),
    {
        let mut frames: Vec<Vec<u8>> = Vec::new();
        frames.push(self.chain.uniform_frame(Register::Shutdown.addr(), NORMAL_OPERATION));
        frames.push(self.chain.uniform_frame(Register::DecodeMode.addr(), DEFAULT_DECODE_MODE));
        frames.push(self.chain.uniform_frame(Register::DisplayTest.addr(), DEFAULT_DISPLAY_TEST));
        frames.push(self.chain.uniform_frame(Register::ScanLimit.addr(), DEFAULT_SCAN_LIMIT));
        frames.push(self.chain.uniform_frame(Register::Intensity.addr(), DEFAULT_INTENSITY));
        proof {
            assert(frames_view(frames@) =~= init_frames(self.spec_device_count() as int));
        }
        frames
    }
}

/// Once the bus has carried every frame of an initialization to chips in
/// any state, each chip is in normal operation with decode mode, display
/// test, scan limit and intensity at their defaults.
pub proof fn delivered_init_configures_chips(
    driver: Max7219,
    transmission: Transmission,
    chips: Seq<Seq<u8>>,
)
    requires
        driver.wf(),
        transmission.wf(),
        transmission.frames() == init_frames(driver.spec_device_count() as int),
        transmission.complete(),
        chips.len() == driver.spec_device_count(),
        chips_wf(chips),
    ensures
        forall|device: int|
            0 <= device < chips.len() ==> {
                let chip = #[trigger] chain_after(chips, transmission.wire())[device];
                &&& chip[Register::Shutdown.spec_addr() as int] == NORMAL_OPERATION
                &&& chip[Register::DecodeMode.spec_addr() as int] == DEFAULT_DECODE_MODE
                &&& chip[Register::DisplayTest.spec_addr() as int] == DEFAULT_DISPLAY_TEST
                &&& chip[Register::ScanLimit.spec_addr() as int] == DEFAULT_SCAN_LIMIT
                &&& chip[Register::Intensity.spec_addr() as int] == DEFAULT_INTENSITY
            },
{
    assert(transmission.wire() =~= transmission.frames());
    init_configures_every_chip(chips);
}

} // verus!
