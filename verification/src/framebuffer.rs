//! The in-memory image of every digit register of the chain.
//!
//! The canvas is 8 pixels high and 8 pixels wide per chip. Pixel (x, y)
//! lives in chip `x / 8`, digit register `y`, bit `7 - x % 8`: the most
//! significant bit of a row is its leftmost column. Nothing here touches the
//! bus; what is written becomes visible with the next flush.

use vstd::prelude::*;
use crate::chain::{select_frame, DeviceChain, MAX_DEVICES};
use crate::error::Error;
use crate::register::{digit_addresses, Register, DIGITS};
use crate::transport::{frames_view, Transmission};

verus! {

/// The height of the canvas in pixels.
pub const HEIGHT: usize = 8;

/// The width in pixels of the part of the canvas that one chip drives.
pub const DEVICE_WIDTH: usize = 8;

/// Whether bit `bit` of `byte` is set.
pub open spec fn bit_of(byte: u8, bit: u8) -> bool {
    (byte >> bit) & 1 == 1
}

/// `byte` with bit `bit` set when `on`, cleared otherwise.
pub open spec fn with_bit(byte: u8, bit: u8, on: bool) -> u8 {
    if on {
        byte | (1u8 << bit)
    } else {
        byte & !(1u8 << bit)
    }
}

/// The bit of a digit register that holds column `x` of the canvas.
pub open spec fn column_bit(x: int) -> u8 {
    (7 - x % 8) as u8
}

/// The place of digit `digit` of chip `device` in the sequence of all digit
/// registers.
pub open spec fn register_index(device: int, digit: int) -> int {
    device * 8 + digit
}

/// The frames of a flush of `registers` to a chain of `device_count` chips:
/// one select frame for each digit register of each chip, chip by chip and
/// within a chip digit by digit, each carrying the register's value.
pub open spec fn flush_frames(device_count: int, registers: Seq<u8>) -> Seq<Seq<u8>> {
    Seq::new(
        registers.len(),
        |k: int|
            select_frame(device_count, k / 8, Register::of_digit(k % 8).spec_addr(), registers[k]),
    )
}

/// Setting or clearing one bit gives that bit the wanted value and leaves
/// the seven others as they were.
pub proof fn with_bit_changes_one_bit(byte: u8, bit: u8, on: bool, other: u8)
    requires
        bit < 8,
        other < 8,
    ensures
        bit_of(with_bit(byte, bit, on), bit) == on,
        other != bit ==> bit_of(with_bit(byte, bit, on), other) == bit_of(byte, other),
{
    assert(((byte | (1u8 << bit)) >> bit) & 1 == 1) by (bit_vector)
        requires
            bit < 8,
    ;
    assert(((byte & !(1u8 << bit)) >> bit) & 1 == 0) by (bit_vector)
        requires
            bit < 8,
    ;
    assert(other != bit ==> ((byte | (1u8 << bit)) >> other) & 1 == (byte >> other) & 1)
        by (bit_vector)
        requires
            bit < 8,
            other < 8,
    ;
    assert(other != bit ==> ((byte & !(1u8 << bit)) >> other) & 1 == (byte >> other) & 1)
        by (bit_vector)
        requires
            bit < 8,
            other < 8,
    ;
}

/// No bit of the zero byte is set.
pub proof fn zero_has_no_bit(bit: u8)
    requires
        bit < 8,
    ensures
        !bit_of(0u8, bit),
{
    assert((0u8 >> bit) & 1 == 0) by (bit_vector)
        requires
            bit < 8,
    ;
}

/// One byte per digit register of every chip in the chain.
#[derive(Debug)]
pub struct Framebuffer {
    device_count: usize,
    rows: Vec<u8>,
}

impl View for Framebuffer {
    type V = Seq<u8>;

    /// The digit registers, chip by chip, eight to a chip.
    closed spec fn view(&self) -> Seq<u8> {
        self.rows@
    }
}

impl Framebuffer {
    /// The number of chips whose registers the framebuffer mirrors.
    pub closed spec fn spec_device_count(&self) -> usize {
        self.device_count
    }

    /// There is one byte for each digit register of each chip.
    pub open spec fn wf(&self) -> bool {
        &&& 1 <= self.spec_device_count() <= MAX_DEVICES
        &&& self@.len() == 8 * self.spec_device_count()
    }

    /// Whether (x, y) is a pixel of the canvas.
    pub open spec fn in_canvas(&self, x: int, y: int) -> bool {
        0 <= x < 8 * self.spec_device_count() && 0 <= y < 8
    }

    /// The value of digit register `digit` of chip `device`.
    pub open spec fn register_at(&self, device: int, digit: int) -> u8 {
        self@[register_index(device, digit)]
    }

    /// Whether pixel (x, y) is lit.
    pub open spec fn pixel_at(&self, x: int, y: int) -> bool {
        bit_of(self.register_at(x / 8, y), column_bit(x))
    }

    /// Makes a framebuffer for `device_count` chips with every pixel off. A
    /// count of zero, or one above `MAX_DEVICES`, is refused with
    /// `InvalidDeviceCount`.
    pub fn new(device_count: usize) -> (framebuffer: Result<Framebuffer, Error>)
        ensures
            1 <= device_count <= MAX_DEVICES ==> framebuffer is Ok && framebuffer->Ok_0.wf()
                && framebuffer->Ok_0.spec_device_count() == device_count && framebuffer->Ok_0@
                == Seq::new((8 * device_count) as nat, |i: int| 0u8),
            !(1 <= device_count <= MAX_DEVICES) ==> framebuffer matches Err(
                Error::InvalidDeviceCount,
            ),
    {
        if device_count == 0 || device_count > MAX_DEVICES {
            return Err(Error::InvalidDeviceCount);
        }
        let len: usize = device_count * 8;
        let mut rows: Vec<u8> = Vec::new();
        let mut i: usize = 0;
        while i < len
            invariant
                i <= len,
                rows@.len() == i,
                forall|k: int| 0 <= k < i ==> rows@[k] == 0u8,
            decreases len - i,
        {
            rows.push(0);
            i += 1;
        }
        Ok(Framebuffer { device_count, rows })
    }

    /// Returns the number of chips whose registers the framebuffer mirrors.
    #[verifier::when_used_as_spec(spec_device_count)]
    pub fn device_count(&self) -> (count: usize)
        ensures
            count == self.spec_device_count(),
    {
        self.device_count
    }

    /// Returns the width of the canvas in pixels.
    pub fn width(&self) -> (width: usize)
        requires
            self.wf(),
        ensures
            width == 8 * self.spec_device_count(),
    {
        self.device_count * DEVICE_WIDTH
    }

    /// Returns the height of the canvas in pixels.
    pub fn height(&self) -> (height: usize)
        ensures
            height == 8,
    {
        HEIGHT
    }

    /// Turns pixel (x, y) on or off.
    ///
    /// Exactly one bit of one digit register changes. A coordinate outside
    /// the canvas is refused with `CoordinateOutOfBounds` and changes
    /// nothing.
    pub fn set_pixel(&mut self, x: usize, y: usize, on: bool) -> (done: Result<(), Error>)
        requires
            old(self).wf(),
        ensures
            final(self).wf(),
            final(self).spec_device_count() == old(self).spec_device_count(),
            old(self).in_canvas(x as int, y as int) ==> done is Ok,
            old(self).in_canvas(x as int, y as int) ==> final(self)@ == old(self)@.update(
                register_index(x as int / 8, y as int),
                with_bit(old(self).register_at(x as int / 8, y as int), column_bit(x as int), on),
            ),
            old(self).in_canvas(x as int, y as int) ==> final(self).pixel_at(x as int, y as int)
                == on,
            old(self).in_canvas(x as int, y as int) ==> forall|x2: int, y2: int|
                old(self).in_canvas(x2, y2) && (x2 != x || y2 != y) ==> final(self).pixel_at(x2, y2)
                    == old(self).pixel_at(x2, y2),
            !old(self).in_canvas(x as int, y as int) ==> done matches Err(
                Error::CoordinateOutOfBounds,
            ),
            !old(self).in_canvas(x as int, y as int) ==> final(self)@ == old(self)@,
    {
        if x >= self.device_count * DEVICE_WIDTH || y >= HEIGHT {
            return Err(Error::CoordinateOutOfBounds);
        }
        let index: usize = (x / 8) * 8 + y;
        let bit: u8 = (7 - x % 8) as u8;
        let before: u8 = self.rows[index];
        let after: u8 = if on {
            before | (1u8 << bit)
        } else {
            before & !(1u8 << bit)
        };
        self.rows.set(index, after);
        proof {
            assert(after == with_bit(before, bit, on));
            with_bit_changes_one_bit(before, bit, on, bit);
            assert forall|x2: int, y2: int|
                old(self).in_canvas(x2, y2) && (x2 != x || y2 != y) implies self.pixel_at(x2, y2)
                == old(self).pixel_at(x2, y2) by {
                if register_index(x2 / 8, y2) == index {
                    assert(x2 / 8 == x as int / 8 && y2 == y);
                    assert(column_bit(x2) != bit);
                    with_bit_changes_one_bit(before, bit, on, column_bit(x2));
                }
            }
        }
        Ok(())
    }

    /// Tells whether pixel (x, y) is lit, or fails with
    /// `CoordinateOutOfBounds` when it is not on the canvas.
    pub fn get_pixel(&self, x: usize, y: usize) -> (lit: Result<bool, Error>)
        requires
            self.wf(),
        ensures
            self.in_canvas(x as int, y as int) ==> lit == Ok::<bool, Error>(
                self.pixel_at(x as int, y as int),
            ),
            !self.in_canvas(x as int, y as int) ==> lit matches Err(Error::CoordinateOutOfBounds),
    {
        if x >= self.device_count * DEVICE_WIDTH || y >= HEIGHT {
            return Err(Error::CoordinateOutOfBounds);
        }
        let index: usize = (x / 8) * 8 + y;
        let bit: u8 = (7 - x % 8) as u8;
        Ok((self.rows[index] >> bit) & 1 == 1)
    }

    /// Turns every pixel off.
    pub fn clear_buffer(&mut self)
        requires
            old(self).wf(),
        ensures
            final(self).wf(),
            final(self).spec_device_count() == old(self).spec_device_count(),
            final(self)@ == Seq::new(old(self)@.len(), |i: int| 0u8),
            forall|device: int, digit: int|
                0 <= device < final(self).spec_device_count() && 0 <= digit < 8 ==> final(
                    self
                ).register_at(device, digit) == 0,
            forall|x: int, y: int| final(self).in_canvas(x, y) ==> !final(self).pixel_at(x, y),
    {
        let len: usize = self.rows.len();
        let mut i: usize = 0;
        while i < len
            invariant
                i <= len,
                self.rows@.len() == len,
                self.device_count == old(self).device_count,
                forall|k: int| 0 <= k < i ==> self.rows@[k] == 0u8,
            decreases len - i,
        {
            self.rows.set(i, 0);
            i += 1;
        }
        proof {
            assert forall|x: int, y: int| self.in_canvas(x, y) implies !self.pixel_at(x, y) by {
                zero_has_no_bit(column_bit(x));
            }
        }
    }

    /// Overwrites digit register `digit` of chip `device` with `byte`.
    ///
    /// Fails with `DeviceIndexOutOfRange` when there is no such chip,
    /// otherwise with `CoordinateOutOfBounds` when there is no such digit;
    /// either way nothing changes.
    pub fn write_raw_digit(&mut self, device: usize, digit: u8, byte: u8) -> (done: Result<
        (),
        Error,
    >)
        requires
            old(self).wf(),
        ensures
            final(self).wf(),
            final(self).spec_device_count() == old(self).spec_device_count(),
            device >= old(self).spec_device_count() ==> done matches Err(
                Error::DeviceIndexOutOfRange,
            ),
            device < old(self).spec_device_count() && digit >= DIGITS ==> done matches Err(
                Error::CoordinateOutOfBounds,
            ),
            done is Err ==> final(self)@ == old(self)@,
            device < old(self).spec_device_count() && digit < DIGITS ==> done is Ok && final(self)@
                == old(self)@.update(register_index(device as int, digit as int), byte),
    {
        if device >= self.device_count {
            return Err(Error::DeviceIndexOutOfRange);
        }
        if digit >= DIGITS {
            return Err(Error::CoordinateOutOfBounds);
        }
        let index: usize = device * 8 + digit as usize;
        self.rows.set(index, byte);
        Ok(())
    }

    /// Returns the frames that carry the whole framebuffer, as it is now, to
    /// the chips of `chain`, ready to be sent.
    ///
    /// Every digit register of every chip gets its own select frame, whether
    /// it changed since the last flush or not. Fails with
    /// `InvalidDeviceCount` when `chain` has another number of chips than the
    /// framebuffer mirrors.
    pub fn flush(&self, chain: &DeviceChain) -> (transmission: Result<Transmission, Error>)
        requires
            self.wf(),
            chain.wf(),
        ensures
            chain.spec_device_count() == self.spec_device_count() ==> transmission is Ok
                && transmission->Ok_0.wf() && transmission->Ok_0.fresh()
                && transmission->Ok_0.spec_frame_len() == 2 * self.spec_device_count()
                && transmission->Ok_0.frames() == flush_frames(
                self.spec_device_count() as int,
                self@,
            ),
            chain.spec_device_count() != self.spec_device_count() ==> transmission matches Err(
                Error::InvalidDeviceCount,
            ),
    {
        if chain.device_count() != self.device_count {
            return Err(Error::InvalidDeviceCount);
        }
        let len: usize = self.rows.len();
        let mut frames: Vec<Vec<u8>> = Vec::new();
        let mut k: usize = 0;
        while k < len
            invariant
                k <= len,
                len == self.rows@.len(),
                self.wf(),
                chain.wf(),
                chain.spec_device_count() == self.spec_device_count(),
                frames@.len() == k,
                forall|j: int|
                    0 <= j < k ==> (#[trigger] frames@[j])@ == select_frame(
                        self.spec_device_count() as int,
                        j / 8,
                        Register::of_digit(j % 8).spec_addr(),
                        self@[j],
                    ),
            decreases len - k,
        {
            let device: usize = k / 8;
            let digit: u8 = (k % 8) as u8;
            proof {
                digit_addresses(digit as int);
            }
            let register = match Register::digit(digit) {
                Ok(register) => register,
                Err(e) => return Err(e),
            };
            match chain.select(device, register, self.rows[k]) {
                Ok(frame) => frames.push(frame),
                Err(e) => return Err(e),
            }
            k += 1;
        }
        proof {
            assert(frames_view(frames@) =~= flush_frames(self.spec_device_count() as int, self@));
            assert forall|i: int| 0 <= i < frames@.len() implies (#[trigger] frames@[i])@.len() == 2
                * self.spec_device_count() by {}
        }
        Ok(Transmission::new(chain.frame_len(), frames))
    }

    /// Returns the value of digit register `digit` of chip `device`.
    ///
    /// Fails with `DeviceIndexOutOfRange` when there is no such chip,
    /// otherwise with `CoordinateOutOfBounds` when there is no such digit.
    pub fn read_raw_digit(&self, device: usize, digit: u8) -> (byte: Result<u8, Error>)
        requires
            self.wf(),
        ensures
            device >= self.spec_device_count() ==> byte matches Err(Error::DeviceIndexOutOfRange),
            device < self.spec_device_count() && digit >= DIGITS ==> byte matches Err(
                Error::CoordinateOutOfBounds,
            ),
            device < self.spec_device_count() && digit < DIGITS ==> byte == Ok::<u8, Error>(
                self.register_at(device as int, digit as int),
            ),
    {
        if device >= self.device_count {
            return Err(Error::DeviceIndexOutOfRange);
        }
        if digit >= DIGITS {
            return Err(Error::CoordinateOutOfBounds);
        }
        let index: usize = device * 8 + digit as usize;
        Ok(self.rows[index])
    }
}

} // verus!
