//! The display as a drawing surface.
//!
//! A `LedMatrix` joins the driver of a chain to a framebuffer of the same
//! geometry and offers what a drawing routine needs: the bounding box of the
//! canvas and a pixel write with an on/off colour. It does no geometry of
//! its own; every write lands in the framebuffer and reaches the chips with
//! the next flush.
//!
//! Pixel and flush operations are accepted only once the chain has been
//! initialized; before that they fail with `DriverNotInitialized`.

use vstd::prelude::*;
use crate::chip::{chain_after, chips_wf, flush_shows_framebuffer};
use crate::driver::{init_completion, init_frames, Lifecycle, Max7219};
use crate::error::Error;
use crate::framebuffer::{
    column_bit,
    flush_frames,
    register_index,
    with_bit,
    Framebuffer,
};
use crate::register::DIGITS;
use crate::transport::Transmission;

verus! {

/// An axis-aligned rectangle of pixels.
#[derive(Clone, Copy, Debug, PartialEq, Eq, Structural)]
pub struct BoundingBox {
    /// The column of the top-left corner.
    pub x: i32,
    /// The row of the top-left corner.
    pub y: i32,
    /// The number of columns.
    pub width: u32,
    /// The number of rows.
    pub height: u32,
}

impl BoundingBox {
    /// Whether the point (x, y) lies in the rectangle.
    pub open spec fn spec_contains(self, x: int, y: int) -> bool {
        self.x <= x < self.x + self.width && self.y <= y < self.y + self.height
    }

    /// Tells whether the point (x, y) lies in the rectangle.
    #[verifier::when_used_as_spec(spec_contains_point)]
    pub fn contains(self, x: i32, y: i32) -> (inside: bool)
        ensures
            inside == self.spec_contains(x as int, y as int),
    {
        let left: i64 = self.x as i64;
        let top: i64 = self.y as i64;
        let px: i64 = x as i64;
        let py: i64 = y as i64;
        left <= px && px < left + self.width as i64 && top <= py && py < top + self.height as i64
    }

    /// Whether the point (x, y), given in machine integers, lies in the
    /// rectangle.
    pub open spec fn spec_contains_point(self, x: i32, y: i32) -> bool {
        self.spec_contains(x as int, y as int)
    }
}

/// A chain of chips and the framebuffer that mirrors them.
#[derive(Debug)]
pub struct LedMatrix {
    driver: Max7219,
    framebuffer: Framebuffer,
}

impl LedMatrix {
    /// The driver of the chain.
    pub closed spec fn spec_driver(&self) -> Max7219 {
        self.driver
    }

    /// The framebuffer.
    pub closed spec fn spec_framebuffer(&self) -> Framebuffer {
        self.framebuffer
    }

    /// The number of chips in the chain.
    pub open spec fn spec_device_count(&self) -> usize {
        self.spec_driver().spec_device_count()
    }

    /// `Ready` once the chain was initialized, `Uninitialized` before.
    pub open spec fn spec_lifecycle(&self) -> Lifecycle {
        if self.spec_driver().spec_lifecycle() == Lifecycle::Initialized {
            Lifecycle::Ready
        } else {
            Lifecycle::Uninitialized
        }
    }

    /// Whether pixel and flush operations are accepted.
    pub open spec fn ready(&self) -> bool {
        self.spec_lifecycle() == Lifecycle::Ready
    }

    /// Driver and framebuffer are well formed and agree on the number of
    /// chips.
    pub open spec fn wf(&self) -> bool {
        &&& self.spec_driver().wf()
        &&& self.spec_framebuffer().wf()
        &&& self.spec_framebuffer().spec_device_count() == self.spec_driver().spec_device_count()
    }

    /// The canvas: 8 columns per chip and 8 rows, from the origin.
    pub open spec fn spec_bounding_box(&self) -> BoundingBox {
        BoundingBox { x: 0, y: 0, width: (8 * self.spec_device_count()) as u32, height: 8 }
    }

    /// Joins `driver` to a new framebuffer for `device_count` chips, every
    /// pixel off. Fails with `InvalidDeviceCount` when the driver's chain
    /// has another number of chips.
    pub fn from_driver(driver: Max7219, device_count: usize) -> (matrix: Result<LedMatrix, Error>)
        requires
            driver.wf(),
        ensures
            device_count == driver.spec_device_count() ==> matrix is Ok && matrix->Ok_0.wf()
                && matrix->Ok_0.spec_driver() == driver && matrix->Ok_0.spec_framebuffer()@
                == Seq::new((8 * device_count) as nat, |i: int| 0u8),
            device_count != driver.spec_device_count() ==> matrix matches Err(
                Error::InvalidDeviceCount,
            ),
    {
        if device_count != driver.device_count() {
            return Err(Error::InvalidDeviceCount);
        }
        match Framebuffer::new(device_count) {
            Ok(framebuffer) => Ok(LedMatrix { driver, framebuffer }),
            Err(e) => Err(e),
        }
    }

    /// Returns the driver of the chain.
    pub fn driver(&self) -> (driver: &Max7219)
        ensures
            *driver == self.spec_driver(),
    {
        &self.driver
    }

    /// Returns the framebuffer, for reading.
    pub fn framebuffer(&self) -> (framebuffer: &Framebuffer)
        ensures
            *framebuffer == self.spec_framebuffer(),
    {
        &self.framebuffer
    }

    /// Returns the number of chips in the chain.
    #[verifier::when_used_as_spec(spec_device_count)]
    pub fn device_count(&self) -> (count: usize)
        ensures
            count == self.spec_device_count(),
    {
        self.driver.device_count()
    }

    /// Returns how far the display has come.
    #[verifier::when_used_as_spec(spec_lifecycle)]
    pub fn lifecycle(&self) -> (lifecycle: Lifecycle)
        ensures
            lifecycle == self.spec_lifecycle(),
    {
        match self.driver.lifecycle() {
            Lifecycle::Initialized => Lifecycle::Ready,
            _ => Lifecycle::Uninitialized,
        }
    }

    /// Returns the frames that initialize the chain, ready to be sent.
    pub fn init(&self) -> (transmission: Transmission)
        requires
            self.wf(),
        ensures
            transmission.wf(),
            transmission.fresh(),
            transmission.frames() == init_frames(self.spec_device_count() as int),
            transmission.spec_frame_len() == 2 * self.spec_device_count(),
    {
        self.driver.init()
    }

    /// Reports how the transmission that `init` handed out went. Once all of
    /// it was delivered the display is `Ready`. The framebuffer is not
    /// touched.
    pub fn complete_init(&mut self, transmission: &Transmission) -> (done: Result<(), Error>)
        requires
            old(self).wf(),
            transmission.wf(),
        ensures
            final(self).wf(),
            final(self).spec_framebuffer() == old(self).spec_framebuffer(),
            final(self).spec_driver().spec_chain() == old(self).spec_driver().spec_chain(),
            (done, final(self).spec_driver().spec_lifecycle()) == init_completion(
                old(self).spec_device_count() as int,
                old(self).spec_driver().spec_lifecycle(),
                *transmission,
            ),
    {
        self.driver.complete_init(transmission)
    }

    /// Returns the width and the height of the canvas in pixels.
    pub fn size(&self) -> (size: (u32, u32))
        requires
            self.wf(),
        ensures
            size.0 == 8 * self.spec_device_count(),
            size.1 == 8,
    {
        ((self.driver.device_count() * 8) as u32, 8)
    }

    /// Returns the rectangle that the canvas covers.
    #[verifier::when_used_as_spec(spec_bounding_box)]
    pub fn bounding_box(&self) -> (bounds: BoundingBox)
        requires
            self.wf(),
        ensures
            bounds == self.spec_bounding_box(),
            forall|x: int, y: int|
                bounds.spec_contains(x, y) <==> self.spec_framebuffer().in_canvas(x, y),
    {
        BoundingBox { x: 0, y: 0, width: (self.driver.device_count() * 8) as u32, height: 8 }
    }

    /// Turns pixel (x, y) on or off in the framebuffer.
    ///
    /// Fails with `DriverNotInitialized` before the display is ready,
    /// otherwise with `CoordinateOutOfBounds` when (x, y) is not on the
    /// canvas. A failure changes nothing. On success exactly one bit of one
    /// digit register changes.
    pub fn set_pixel(&mut self, x: usize, y: usize, on: bool) -> (done: Result<(), Error>)
        requires
            old(self).wf(),
        ensures
            final(self).wf(),
            final(self).spec_driver() == old(self).spec_driver(),
            !old(self).ready() ==> done matches Err(Error::DriverNotInitialized),
            old(self).ready() && !old(self).spec_framebuffer().in_canvas(x as int, y as int)
                ==> done matches Err(Error::CoordinateOutOfBounds),
            old(self).ready() && old(self).spec_framebuffer().in_canvas(x as int, y as int)
                ==> done is Ok,
            done is Err ==> final(self).spec_framebuffer()@ == old(self).spec_framebuffer()@,
            done is Ok ==> final(self).spec_framebuffer()@ == old(self).spec_framebuffer()@.update(
                register_index(x as int / 8, y as int),
                with_bit(
                    old(self).spec_framebuffer().register_at(x as int / 8, y as int),
                    column_bit(x as int),
                    on,
                ),
            ),
            done is Ok ==> final(self).spec_framebuffer().pixel_at(x as int, y as int) == on,
            done is Ok ==> forall|x2: int, y2: int|
                old(self).spec_framebuffer().in_canvas(x2, y2) && (x2 != x || y2 != y) ==> final(
                    self
                ).spec_framebuffer().pixel_at(x2, y2) == old(self).spec_framebuffer().pixel_at(
                    x2,
                    y2,
                ),
    {
        match self.driver.lifecycle() {
            Lifecycle::Initialized => self.framebuffer.set_pixel(x, y, on),
            _ => Err(Error::DriverNotInitialized),
        }
    }

    /// Writes one pixel for a drawing routine: the point (x, y) in signed
    /// coordinates, lit or dark.
    ///
    /// Fails with `DriverNotInitialized` before the display is ready,
    /// otherwise with `CoordinateOutOfBounds` when the point lies outside
    /// the bounding box. A failure changes nothing; a success is that of
    /// `set_pixel` on the same point.
    pub fn draw_pixel(&mut self, x: i32, y: i32, on: bool) -> (done: Result<(), Error>)
        requires
            old(self).wf(),
        ensures
            final(self).wf(),
            final(self).spec_driver() == old(self).spec_driver(),
            !old(self).ready() ==> done matches Err(Error::DriverNotInitialized),
            old(self).ready() && !old(self).spec_bounding_box().spec_contains(x as int, y as int)
                ==> done matches Err(Error::CoordinateOutOfBounds),
            old(self).ready() && old(self).spec_bounding_box().spec_contains(x as int, y as int)
                ==> done is Ok,
            done is Err ==> final(self).spec_framebuffer()@ == old(self).spec_framebuffer()@,
            done is Ok ==> final(self).spec_framebuffer()@ == old(self).spec_framebuffer()@.update(
                register_index(x as int / 8, y as int),
                with_bit(
                    old(self).spec_framebuffer().register_at(x as int / 8, y as int),
                    column_bit(x as int),
                    on,
                ),
            ),
            done is Ok ==> final(self).spec_framebuffer().pixel_at(x as int, y as int) == on,
            done is Ok ==> forall|x2: int, y2: int|
                old(self).spec_framebuffer().in_canvas(x2, y2) && (x2 != x || y2 != y) ==> final(
                    self
                ).spec_framebuffer().pixel_at(x2, y2) == old(self).spec_framebuffer().pixel_at(
                    x2,
                    y2,
                ),
    {
        match self.driver.lifecycle() {
            Lifecycle::Initialized => {
                if x < 0 || y < 0 {
                    Err(Error::CoordinateOutOfBounds)
                } else {
                    self.framebuffer.set_pixel(x as usize, y as usize, on)
                }
            },
            _ => Err(Error::DriverNotInitialized),
        }
    }

    /// Turns every pixel of the framebuffer off. The chips show it with the
    /// next flush.
    ///
    /// Fails with `DriverNotInitialized` before the display is ready, and
    /// then changes nothing.
    pub fn clear_buffer(&mut self) -> (done: Result<(), Error>)
        requires
            old(self).wf(),
        ensures
            final(self).wf(),
            final(self).spec_driver() == old(self).spec_driver(),
            !old(self).ready() ==> done matches Err(Error::DriverNotInitialized),
            !old(self).ready() ==> final(self).spec_framebuffer()@ == old(
                self
            ).spec_framebuffer()@,
            old(self).ready() ==> done is Ok,
            old(self).ready() ==> final(self).spec_framebuffer()@ == Seq::new(
                (8 * old(self).spec_device_count()) as nat,
                |i: int| 0u8,
            ),
            old(self).ready() ==> forall|device: int, digit: int|
                0 <= device < final(self).spec_device_count() && 0 <= digit < 8 ==> final(
                    self
                ).spec_framebuffer().register_at(device, digit) == 0,
            old(self).ready() ==> forall|x: int, y: int|
                final(self).spec_framebuffer().in_canvas(x, y) ==> !final(
                    self
                ).spec_framebuffer().pixel_at(x, y),
    {
        match self.driver.lifecycle() {
            Lifecycle::Initialized => {
                self.framebuffer.clear_buffer();
                Ok(())
            },
            _ => Err(Error::DriverNotInitialized),
        }
    }

    /// Overwrites digit register `digit` of chip `device` in the
    /// framebuffer with `byte`, bypassing the coordinate mapping.
    ///
    /// Fails with `DriverNotInitialized` before the display is ready,
    /// otherwise with `DeviceIndexOutOfRange` when there is no such chip,
    /// otherwise with `CoordinateOutOfBounds` when there is no such digit. A
    /// failure changes nothing.
    pub fn write_raw_digit(&mut self, device: usize, digit: u8, byte: u8) -> (done: Result<
        (),
        Error,
    >)
        requires
            old(self).wf(),
        ensures
            final(self).wf(),
            final(self).spec_driver() == old(self).spec_driver(),
            !old(self).ready() ==> done matches Err(Error::DriverNotInitialized),
            old(self).ready() && device >= old(self).spec_device_count() ==> done matches Err(
                Error::DeviceIndexOutOfRange,
            ),
            old(self).ready() && device < old(self).spec_device_count() && digit >= DIGITS
                ==> done matches Err(Error::CoordinateOutOfBounds),
            old(self).ready() && device < old(self).spec_device_count() && digit < DIGITS
                ==> done is Ok,
            done is Err ==> final(self).spec_framebuffer()@ == old(self).spec_framebuffer()@,
            done is Ok ==> final(self).spec_framebuffer()@ == old(self).spec_framebuffer()@.update(
                register_index(device as int, digit as int),
                byte,
            ),
    {
        match self.driver.lifecycle() {
            Lifecycle::Initialized => self.framebuffer.write_raw_digit(device, digit, byte),
            _ => Err(Error::DriverNotInitialized),
        }
    }

    /// Returns the frames that carry the whole framebuffer, as it is now, to
    /// the chips, ready to be sent: one select frame for each digit register
    /// of each chip.
    ///
    /// Fails with `DriverNotInitialized` before the display is ready.
    pub fn flush(&self) -> (transmission: Result<Transmission, Error>)
        requires
            self.wf(),
        ensures
            !self.ready() ==> transmission matches Err(Error::DriverNotInitialized),
            self.ready() ==> transmission is Ok && transmission->Ok_0.wf()
                && transmission->Ok_0.fresh() && transmission->Ok_0.spec_frame_len() == 2
                * self.spec_device_count() && transmission->Ok_0.frames() == flush_frames(
                self.spec_device_count() as int,
                self.spec_framebuffer()@,
            ),
    {
        match self.driver.lifecycle() {
            Lifecycle::Initialized => {
                let chain = self.driver.chain();
                self.framebuffer.flush(&chain)
            },
            _ => Err(Error::DriverNotInitialized),
        }
    }
}

/// Flushing twice with no write in between hands the bus the same bytes:
/// two flushes of one display, each delivered in full, put identical frames
/// on the wire, in the same order.
pub proof fn flush_twice_sends_same_bytes(
    matrix: LedMatrix,
    first: Transmission,
    second: Transmission,
)
    requires
        matrix.wf(),
        first.wf(),
        second.wf(),
        first.frames() == flush_frames(
            matrix.spec_device_count() as int,
            matrix.spec_framebuffer()@,
        ),
        second.frames() == flush_frames(
            matrix.spec_device_count() as int,
            matrix.spec_framebuffer()@,
        ),
        first.complete(),
        second.complete(),
    ensures
        first.wire() == second.wire(),
        first.wire() == flush_frames(matrix.spec_device_count() as int, matrix.spec_framebuffer()@),
{
    assert(first.wire() =~= first.frames());
    assert(second.wire() =~= second.frames());
}

/// What a flush transmits is the framebuffer: once the bus has carried
/// every frame of a flush to chips in any state, each digit register of each
/// chip holds the byte the framebuffer had for it when the flush was made,
/// and the configuration registers are untouched.
pub proof fn delivered_flush_shows_framebuffer(
    matrix: LedMatrix,
    transmission: Transmission,
    chips: Seq<Seq<u8>>,
)
    requires
        matrix.wf(),
        transmission.wf(),
        transmission.frames() == flush_frames(
            matrix.spec_device_count() as int,
            matrix.spec_framebuffer()@,
        ),
        transmission.complete(),
        chips.len() == matrix.spec_device_count(),
        chips_wf(chips),
    ensures
        forall|device: int, digit: int|
            0 <= device < chips.len() && 0 <= digit < 8 ==> chain_after(
                chips,
                transmission.wire(),
            )[device][digit + 1] == #[trigger] matrix.spec_framebuffer().register_at(device, digit),
        forall|device: int, register: int|
            0 <= device < chips.len() && (register == 0 || 9 <= register < 16)
                ==> #[trigger] chain_after(chips, transmission.wire())[device][register]
                == chips[device][register],
{
    assert(transmission.wire() =~= transmission.frames());
    flush_shows_framebuffer(chips, matrix.spec_framebuffer()@);
    assert forall|device: int, digit: int|
        0 <= device < chips.len() && 0 <= digit < 8 implies chain_after(
        chips,
        transmission.wire(),
    )[device][digit + 1] == #[trigger] matrix.spec_framebuffer().register_at(device, digit) by {
        assert(matrix.spec_framebuffer().register_at(device, digit)
            == matrix.spec_framebuffer()@[register_index(device, digit)]);
    }
}

} // verus!
