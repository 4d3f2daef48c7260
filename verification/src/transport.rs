//! The frames of one operation on their way to the bus.
//!
//! The driver never touches the bus. It hands out a `Transmission`: the
//! frames to send, in order, each to go out as one contiguous transfer inside
//! one chip-select cycle. The owner of the bus asks for the next frame,
//! transfers it, and records how that went. A fault ends the transmission:
//! no frame is offered again, because a frame that was shifted in part way
//! and then sent anew could latch in the wrong chips.

use vstd::prelude::*;
use crate::error::Error;

verus! {

/// What the bus reported of the transfer of one frame.
#[derive(Clone, Copy, Debug, PartialEq, Eq, Structural)]
pub enum TransferOutcome {
    /// The whole frame went out.
    Delivered,
    /// The transfer failed.
    Fault,
}

/// The byte sequences that a list of frames holds.
pub open spec fn frames_view(frames: Seq<Vec<u8>>) -> Seq<Seq<u8>> {
    Seq::new(frames.len(), |i: int| frames[i]@)
}

/// An ordered list of frames and how far the bus has got with it.
#[derive(Debug)]
pub struct Transmission {
    frame_len: usize,
    frames: Vec<Vec<u8>>,
    delivered: usize,
    faulted: bool,
}

impl Transmission {
    /// All frames of the transmission, in the order they go out.
    pub closed spec fn frames(&self) -> Seq<Seq<u8>> {
        frames_view(self.frames@)
    }

    /// The length in bytes that every frame has.
    pub closed spec fn spec_frame_len(&self) -> usize {
        self.frame_len
    }

    /// How many frames the bus has carried.
    pub closed spec fn spec_delivered(&self) -> usize {
        self.delivered
    }

    /// Whether a transfer has failed.
    pub closed spec fn spec_faulted(&self) -> bool {
        self.faulted
    }

    /// Every frame has the same length; the frames that were delivered are
    /// a prefix of the list; and a fault struck a frame of the list.
    pub open spec fn wf(&self) -> bool {
        &&& self.spec_delivered() <= self.frames().len()
        &&& self.spec_faulted() ==> self.spec_delivered() < self.frames().len()
        &&& forall|i: int|
            0 <= i < self.frames().len() ==> (#[trigger] self.frames()[i]).len()
                == self.spec_frame_len()
    }

    /// Nothing has been sent yet.
    pub open spec fn fresh(&self) -> bool {
        self.spec_delivered() == 0 && !self.spec_faulted()
    }

    /// A frame is waiting to be sent.
    pub open spec fn pending(&self) -> bool {
        !self.spec_faulted() && self.spec_delivered() < self.frames().len()
    }

    /// Every frame was delivered.
    pub open spec fn complete(&self) -> bool {
        !self.spec_faulted() && self.spec_delivered() == self.frames().len()
    }

    /// The frames that were handed to the bus so far, in order: those that
    /// were delivered and, after a fault, the one that failed.
    pub open spec fn wire(&self) -> Seq<Seq<u8>> {
        self.frames().take(
            if self.spec_faulted() {
                self.spec_delivered() + 1
            } else {
                self.spec_delivered() as int
            },
        )
    }

    /// Makes a transmission of `frames`, none of them sent yet.
    pub(crate) fn new(frame_len: usize, frames: Vec<Vec<u8>>) -> (transmission: Transmission)
        requires
            forall|i: int| 0 <= i < frames@.len() ==> (#[trigger] frames@[i])@.len() == frame_len,
        ensures
            transmission.wf(),
            transmission.fresh(),
            transmission.frames() == frames_view(frames@),
            transmission.spec_frame_len() == frame_len,
    {
        Transmission { frame_len, frames, delivered: 0, faulted: false }
    }

    /// Returns the length in bytes of every frame.
    #[verifier::when_used_as_spec(spec_frame_len)]
    pub fn frame_len(&self) -> (len: usize)
        ensures
            len == self.spec_frame_len(),
    {
        self.frame_len
    }

    /// Returns how many frames the bus has carried.
    #[verifier::when_used_as_spec(spec_delivered)]
    pub fn delivered(&self) -> (count: usize)
        ensures
            count == self.spec_delivered(),
    {
        self.delivered
    }

    /// Tells whether a transfer has failed.
    #[verifier::when_used_as_spec(spec_faulted)]
    pub fn faulted(&self) -> (faulted: bool)
        ensures
            faulted == self.spec_faulted(),
    {
        self.faulted
    }

    /// Returns the number of frames in the transmission.
    pub fn frame_count(&self) -> (count: usize)
        ensures
            count == self.frames().len(),
    {
        self.frames.len()
    }

    /// Returns the frame to transfer next, or `None` when every frame was
    /// delivered or a transfer has failed.
    pub fn next_frame(&self) -> (frame: Option<&Vec<u8>>)
        requires
            self.wf(),
        ensures
            self.pending() ==> frame is Some && frame->Some_0@ == self.frames()[
                self.spec_delivered() as int
            ] && frame->Some_0@.len() == self.spec_frame_len(),
            !self.pending() ==> frame is None,
    {
        if self.faulted || self.delivered >= self.frames.len() {
            None
        } else {
            proof {
                assert(self.frames()[self.delivered as int]
                    == self.frames@[self.delivered as int]@);
            }
            Some(&self.frames[self.delivered])
        }
    }

    /// Records how the transfer of the frame that `next_frame` offered went.
    ///
    /// A delivery moves on to the next frame. A fault ends the transmission.
    /// When no frame was waiting, nothing changes.
    pub fn record(&mut self, outcome: TransferOutcome)
        requires
            old(self).wf(),
        ensures
            final(self).wf(),
            final(self).frames() == old(self).frames(),
            final(self).spec_frame_len() == old(self).spec_frame_len(),
            old(self).pending() && outcome == TransferOutcome::Delivered ==> final(
                self
            ).spec_delivered() == old(self).spec_delivered() + 1 && !final(self).spec_faulted(),
            old(self).pending() && outcome == TransferOutcome::Fault ==> final(
                self
            ).spec_delivered() == old(self).spec_delivered() && final(self).spec_faulted(),
            !old(self).pending() ==> final(self).spec_delivered() == old(self).spec_delivered()
                && final(self).spec_faulted() == old(self).spec_faulted(),
            old(self).pending() ==> final(self).wire() == old(self).wire().push(
                old(self).frames()[old(self).spec_delivered() as int],
            ),
            !old(self).pending() ==> final(self).wire() == old(self).wire(),
    {
        if !self.faulted && self.delivered < self.frames.len() {
            match outcome {
                TransferOutcome::Delivered => {
                    self.delivered = self.delivered + 1;
                },
                TransferOutcome::Fault => {
                    self.faulted = true;
                },
            }
        }
    }

    /// Returns how the transmission ended: `None` while a frame is still
    /// waiting, `Ok` once every frame was delivered, `TransportError` after a
    /// fault.
    pub fn result(&self) -> (result: Option<Result<(), Error>>)
        requires
            self.wf(),
        ensures
            self.pending() ==> result is None,
            self.complete() ==> result == Some(Ok::<(), Error>(())),
            self.spec_faulted() ==> result == Some(Err::<(), Error>(Error::TransportError)),
    {
        if self.faulted {
            Some(Err(Error::TransportError))
        } else if self.delivered < self.frames.len() {
            None
        } else {
            Some(Ok(()))
        }
    }

    /// Tells whether the transmission consists of exactly `frames`.
    pub fn carries(&self, frames: &Vec<Vec<u8>>) -> (same: bool)
        ensures
            same == (self.frames() == frames_view(frames@)),
    {
        if self.frames.len() != frames.len() {
            proof {
                assert(self.frames().len() != frames_view(frames@).len());
            }
            return false;
        }
        let mut i: usize = 0;
        while i < frames.len()
            invariant
                i <= frames@.len(),
                self.frames@.len() == frames@.len(),
                forall|k: int| 0 <= k < i ==> self.frames@[k]@ == frames@[k]@,
            decreases frames@.len() - i,
        {
            if !same_bytes(&self.frames[i], &frames[i]) {
                proof {
                    assert(self.frames()[i as int] == self.frames@[i as int]@);
                    assert(frames_view(frames@)[i as int] == frames@[i as int]@);
                }
                return false;
            }
            i += 1;
        }
        proof {
            assert(self.frames() =~= frames_view(frames@));
        }
        true
    }
}

/// Tells whether two frames hold the same bytes.
fn same_bytes(a: &Vec<u8>, b: &Vec<u8>) -> (same: bool)
    ensures
        same == (a@ == b@),
{
    if a.len() != b.len() {
        return false;
    }
    let mut i: usize = 0;
    while i < a.len()
        invariant
            i <= a@.len(),
            a@.len() == b@.len(),
            forall|k: int| 0 <= k < i ==> a@[k] == b@[k],
        decreases a@.len() - i,
    {
        if a[i] != b[i] {
            return false;
        }
        i += 1;
    }
    proof {
        assert(a@ =~= b@);
    }
    true
}

} // verus!
