//! A mock frame-transfer capability for exercising the controller without
//! hardware.
//!
//! [`MockTransfer`] implements [`ActiveBus`] by recording every frame it is
//! asked to transfer; it either completes every transfer or, when built with
//! a fault injected, fails every one.  Its record is the concrete form of the
//! ghost transfer log, so a caller can hold the controller's contracts
//! against the exact bytes and target addresses that crossed the bus.

use crate::bus::{ActiveBus, Frame};
use vstd::prelude::*;

verus! {

/// One frame as recorded by [`MockTransfer`]: the concrete counterpart of
/// [`Frame`].
pub struct RecordedFrame {
    /// Block selector the transfer addressed.
    pub block: u8,
    /// Register address the transfer addressed.
    pub address: u16,
    /// True for a write to the chip, false for a read from it.
    pub is_write: bool,
    /// The payload bytes handed to the transfer.
    pub data: Vec<u8>,
}

impl RecordedFrame {
    /// The frame this record stands for.
    pub open spec fn frame(&self) -> Frame {
        Frame { block: self.block, address: self.address, is_write: self.is_write, data: self.data@ }
    }
}

/// A transport that records every frame instead of driving a physical link.
///
/// When built by [`MockTransfer::new`] it completes every transfer; when
/// built by [`MockTransfer::with_fault`] it reports [`MockError`] on every
/// transfer and records nothing.
pub struct MockTransfer {
    pub(crate) frames: Vec<RecordedFrame>,
    pub(crate) fail: bool,
}

/// The transport-level fault reported by a [`MockTransfer`] with a fault
/// injected.
pub struct MockError {}

impl MockTransfer {
    /// Whether this transport reports a fault on every transfer.
    pub closed spec fn fails(&self) -> bool {
        self.fail
    }

    /// A transport that completes every transfer, with an empty record.
    pub fn new() -> (r: MockTransfer)
        ensures
            r.transfer_log() == Seq::<Frame>::empty(),
            !r.fails(),
    {
        MockTransfer { frames: Vec::new(), fail: false }
    }

    /// A transport that reports a fault on every transfer, with an empty
    /// record.
    pub fn with_fault() -> (r: MockTransfer)
        ensures
            r.transfer_log() == Seq::<Frame>::empty(),
            r.fails(),
    {
        MockTransfer { frames: Vec::new(), fail: true }
    }

    /// Returns how many frames this transport has recorded.
    pub fn frame_count(&self) -> (n: usize)
        ensures
            n == self.transfer_log().len(),
    {
        self.frames.len()
    }

    /// Returns the `i`-th recorded frame, oldest first.
    pub fn frame_at(&self, i: usize) -> (f: &RecordedFrame)
        requires
            i < self.transfer_log().len(),
        ensures
            f.frame() == self.transfer_log()[i as int],
    {
        &self.frames[i]
    }
}

impl ActiveBus for MockTransfer {
    type Error = MockError;

    closed spec fn transfer_log(&self) -> Seq<Frame> {
        self.frames@.map_values(|f: RecordedFrame| f.frame())
    }

    fn transfer_frame(
        &mut self,
        block: u8,
        address: u16,
        is_write: bool,
        data: &mut Vec<u8>,
    ) -> (r: Result<(), MockError>)
        ensures
            r is Ok <==> !old(self).fails(),
            final(self).fails() == old(self).fails(),
    {
        if self.fail {
            return Err(MockError {});
        }
        let mut copied: Vec<u8> = Vec::new();
        let mut k: usize = 0;
        while k < data.len()
            invariant
                k <= data@.len(),
                copied@ == data@.subrange(0, k as int),
            decreases data@.len() - k,
        {
            copied.push(data[k]);
            assert(copied@ =~= data@.subrange(0, k + 1 as int));
            k += 1;
        }
        assert(copied@ =~= data@);
        let recorded = RecordedFrame { block, address, is_write, data: copied };
        let ghost frame = recorded.frame();
        self.frames.push(recorded);
        proof {
            let view = |f: RecordedFrame| f.frame();
            assert(self.frames@.map_values(view) =~= old(self).frames@.map_values(view).push(
                frame,
            ));
        }
        Ok(())
    }
}

} // verus!
