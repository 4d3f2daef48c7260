//! What the chips hold once frames have been clocked in.
//!
//! A chip is modelled by its sixteen registers, indexed by address. When
//! chip-select rises, each chip latches the pair that sits in its part of
//! the shift register: the low four bits of the first byte choose the
//! register, the second byte is stored there. Address 0 is the no-op and
//! stores nothing.
//!
//! Against this model the driver's two sequences of frames are shown to do
//! what they are for: initialization configures every chip, and a flush
//! makes the digit registers of every chip equal to the framebuffer.

use vstd::prelude::*;
use crate::chain::{
    broadcast_frame,
    broadcast_reaches_every_device,
    latched,
    select_frame,
    select_reaches_one_device,
};
use crate::driver::{
    init_frames,
    DEFAULT_DECODE_MODE,
    DEFAULT_DISPLAY_TEST,
    DEFAULT_INTENSITY,
    DEFAULT_SCAN_LIMIT,
    NORMAL_OPERATION,
};
use crate::framebuffer::{flush_frames, register_index};
use crate::register::{digit_addresses, Register};

verus! {

/// Every chip of `chips` has its sixteen registers.
pub open spec fn chips_wf(chips: Seq<Seq<u8>>) -> bool {
    forall|device: int| 0 <= device < chips.len() ==> (#[trigger] chips[device]).len() == 16
}

/// The registers of a chip after it latched `pair`.
pub open spec fn chip_latch(chip: Seq<u8>, pair: (u8, u8)) -> Seq<u8> {
    if pair.0 % 16 == 0 {
        chip
    } else {
        chip.update(pair.0 as int % 16, pair.1)
    }
}

/// The registers of every chip after `frame` was clocked into the chain and
/// latched.
pub open spec fn chain_latch(chips: Seq<Seq<u8>>, frame: Seq<u8>) -> Seq<Seq<u8>> {
    Seq::new(
        chips.len(),
        |device: int| chip_latch(chips[device], latched(frame, chips.len() as int, device)),
    )
}

/// The registers of every chip after `frames` were clocked in and latched,
/// one after the other.
pub open spec fn chain_after(chips: Seq<Seq<u8>>, frames: Seq<Seq<u8>>) -> Seq<Seq<u8>>
    decreases frames.len(),
{
    if frames.len() == 0 {
        chips
    } else {
        chain_latch(chain_after(chips, frames.drop_last()), frames.last())
    }
}

/// A broadcast of (`address`, `data`), with `address` a register other than
/// the no-op, stores `data` at `address` in every chip and leaves every
/// other register as it was.
pub proof fn broadcast_latches_everywhere(chips: Seq<Seq<u8>>, address: u8, data: u8)
    requires
        chips_wf(chips),
        1 <= address < 16,
    ensures
        chain_latch(chips, broadcast_frame(chips.len() as int, address, data)).len()
            == chips.len(),
        chips_wf(chain_latch(chips, broadcast_frame(chips.len() as int, address, data))),
        forall|device: int, register: int|
            0 <= device < chips.len() && 0 <= register < 16 ==> #[trigger] chain_latch(
                chips,
                broadcast_frame(chips.len() as int, address, data),
            )[device][register] == if register == address {
                data
            } else {
                chips[device][register]
            },
{
    let frame = broadcast_frame(chips.len() as int, address, data);
    assert forall|device: int| 0 <= device < chips.len() implies latched(
        frame,
        chips.len() as int,
        device,
    ) == (address, data) by {
        broadcast_reaches_every_device(chips.len() as int, address, data, device);
    }
}

/// A select of chip `index` with (`address`, `data`), with `address` a
/// register other than the no-op, stores `data` at `address` in that chip
/// and leaves every other register of every chip as it was.
pub proof fn select_latches_in_one_chip(chips: Seq<Seq<u8>>, index: int, address: u8, data: u8)
    requires
        chips_wf(chips),
        0 <= index < chips.len(),
        1 <= address < 16,
    ensures
        chain_latch(chips, select_frame(chips.len() as int, index, address, data)).len()
            == chips.len(),
        chips_wf(chain_latch(chips, select_frame(chips.len() as int, index, address, data))),
        forall|device: int, register: int|
            0 <= device < chips.len() && 0 <= register < 16 ==> #[trigger] chain_latch(
                chips,
                select_frame(chips.len() as int, index, address, data),
            )[device][register] == if device == index && register == address {
                data
            } else {
                chips[device][register]
            },
{
    let frame = select_frame(chips.len() as int, index, address, data);
    assert forall|device: int| 0 <= device < chips.len() implies latched(
        frame,
        chips.len() as int,
        device,
    ) == if device == index {
        (address, data)
    } else {
        (0u8, 0u8)
    } by {
        select_reaches_one_device(chips.len() as int, index, address, data, device);
    }
}

/// The chips after the first `count` frames of a flush: the digit registers
/// that those frames address hold the framebuffer's bytes, and every other
/// register is as it was.
proof fn flush_prefix_latched(chips: Seq<Seq<u8>>, registers: Seq<u8>, count: int)
    requires
        chips_wf(chips),
        registers.len() == 8 * chips.len(),
        0 <= count <= registers.len(),
    ensures
        chain_after(chips, flush_frames(chips.len() as int, registers).take(count)).len()
            == chips.len(),
        chips_wf(chain_after(chips, flush_frames(chips.len() as int, registers).take(count))),
        forall|device: int, register: int|
            0 <= device < chips.len() && 0 <= register < 16 ==> #[trigger] chain_after(
                chips,
                flush_frames(chips.len() as int, registers).take(count),
            )[device][register] == if 1 <= register <= 8 && register_index(device, register - 1)
                < count {
                registers[register_index(device, register - 1)]
            } else {
                chips[device][register]
            },
    decreases count,
{
    let n = chips.len() as int;
    let frames = flush_frames(n, registers);
    let sent = frames.take(count);
    if count == 0 {
        assert(sent.len() == 0);
    } else {
        let k = count - 1;
        flush_prefix_latched(chips, registers, k);
        assert(sent.drop_last() =~= frames.take(k));
        assert(sent.last() == frames[k]);
        let before = chain_after(chips, frames.take(k));
        let address = Register::of_digit(k % 8).spec_addr();
        digit_addresses(k % 8);
        assert(frames[k] == select_frame(n, k / 8, address, registers[k]));
        select_latches_in_one_chip(before, k / 8, address, registers[k]);
        assert(chain_after(chips, sent) == chain_latch(before, frames[k]));
    }
}

/// Once every frame of a flush was clocked in, each digit register of each
/// chip holds the byte that the framebuffer has for it, and no other
/// register has changed.
pub proof fn flush_shows_framebuffer(chips: Seq<Seq<u8>>, registers: Seq<u8>)
    requires
        chips_wf(chips),
        registers.len() == 8 * chips.len(),
    ensures
        chain_after(chips, flush_frames(chips.len() as int, registers)).len() == chips.len(),
        chips_wf(chain_after(chips, flush_frames(chips.len() as int, registers))),
        forall|device: int, digit: int|
            0 <= device < chips.len() && 0 <= digit < 8 ==> chain_after(
                chips,
                flush_frames(chips.len() as int, registers),
            )[device][digit + 1] == registers[#[trigger] register_index(device, digit)],
        forall|device: int, register: int|
            0 <= device < chips.len() && (register == 0 || 9 <= register < 16)
                ==> #[trigger] chain_after(
                chips,
                flush_frames(chips.len() as int, registers),
            )[device][register] == chips[device][register],
{
    let frames = flush_frames(chips.len() as int, registers);
    flush_prefix_latched(chips, registers, registers.len() as int);
    assert(frames.take(registers.len() as int) =~= frames);
    let after = chain_after(chips, frames);
    assert forall|device: int, digit: int|
        0 <= device < chips.len() && 0 <= digit < 8 implies after[device][digit + 1]
        == registers[#[trigger] register_index(device, digit)] by {
        assert(register_index(device, (digit + 1) - 1) < registers.len());
    }
}

/// Once every frame of initialization was clocked in, each chip is in
/// normal operation with decode mode, display test, scan limit and
/// intensity at their defaults, and its digit registers, at addresses 1 to
/// 8, are as they were.
pub proof fn init_configures_every_chip(chips: Seq<Seq<u8>>)
    requires
        chips_wf(chips),
    ensures
        chain_after(chips, init_frames(chips.len() as int)).len() == chips.len(),
        chips_wf(chain_after(chips, init_frames(chips.len() as int))),
        forall|device: int|
            0 <= device < chips.len() ==> {
                let chip = #[trigger] chain_after(chips, init_frames(chips.len() as int))[device];
                &&& chip[Register::Shutdown.spec_addr() as int] == NORMAL_OPERATION
                &&& chip[Register::DecodeMode.spec_addr() as int] == DEFAULT_DECODE_MODE
                &&& chip[Register::DisplayTest.spec_addr() as int] == DEFAULT_DISPLAY_TEST
                &&& chip[Register::ScanLimit.spec_addr() as int] == DEFAULT_SCAN_LIMIT
                &&& chip[Register::Intensity.spec_addr() as int] == DEFAULT_INTENSITY
                &&& forall|register: int|
                    1 <= register <= 8 ==> chip[register] == chips[device][register]
            },
{
    let n = chips.len() as int;
    let frames = init_frames(n);
    let c0 = chain_after(chips, frames.take(0));
    assert(frames.take(0).len() == 0);
    assert(c0 == chips);

    let c1 = chain_after(chips, frames.take(1));
    assert(frames.take(1).drop_last() =~= frames.take(0));
    broadcast_latches_everywhere(c0, Register::Shutdown.spec_addr(), NORMAL_OPERATION);
    assert(c1 == chain_latch(c0, frames[0]));

    let c2 = chain_after(chips, frames.take(2));
    assert(frames.take(2).drop_last() =~= frames.take(1));
    broadcast_latches_everywhere(c1, Register::DecodeMode.spec_addr(), DEFAULT_DECODE_MODE);
    assert(c2 == chain_latch(c1, frames[1]));

    let c3 = chain_after(chips, frames.take(3));
    assert(frames.take(3).drop_last() =~= frames.take(2));
    broadcast_latches_everywhere(c2, Register::DisplayTest.spec_addr(), DEFAULT_DISPLAY_TEST);
    assert(c3 == chain_latch(c2, frames[2]));

    let c4 = chain_after(chips, frames.take(4));
    assert(frames.take(4).drop_last() =~= frames.take(3));
    broadcast_latches_everywhere(c3, Register::ScanLimit.spec_addr(), DEFAULT_SCAN_LIMIT);
    assert(c4 == chain_latch(c3, frames[3]));

    let c5 = chain_after(chips, frames.take(5));
    assert(frames.take(5).drop_last() =~= frames.take(4));
    broadcast_latches_everywhere(c4, Register::Intensity.spec_addr(), DEFAULT_INTENSITY);
    assert(c5 == chain_latch(c4, frames[4]));

    assert(frames.take(5) =~= frames);
}

} // verus!
