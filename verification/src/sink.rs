//! Frame sink: a single-slot, last-write-wins buffer for decoded video
//! frames.
//!
//! Each new sample replaces the previously stored frame whole; frames that
//! arrive faster than they are read are dropped by design.  A reader always
//! receives an independent snapshot of a complete frame, never an alias into
//! the slot.  The mutual exclusion between the decode callback and the
//! reader is the embedding's business; this type supplies the slot's
//! semantics.

use vstd::prelude::*;

verus! {

/// One decoded video frame: its pixel bytes and dimensions.
#[derive(Debug)]
pub struct Frame {
    /// Raw pixel bytes, four bytes per pixel.
    pub data: Vec<u8>,
    /// Width in pixels.
    pub width: u32,
    /// Height in pixels.
    pub height: u32,
}

impl Frame {
    /// A complete frame: exactly four bytes for every pixel.
    pub open spec fn wf(self) -> bool {
        self.data@.len() == 4 * self.width * self.height
    }

    /// An independent copy of this frame: same bytes, same dimensions,
    /// sharing nothing with the original.
    pub fn snapshot(&self) -> (r: Frame)
        ensures
            r.data@ == self.data@,
            r.width == self.width,
            r.height == self.height,
    {
        let mut data: Vec<u8> = Vec::new();
        let mut i: usize = 0;
        while i < self.data.len()
            invariant
                i <= self.data@.len(),
                data@ == self.data@.take(i as int),
            decreases self.data@.len() - i,
        {
            data.push(self.data[i]);
            proof {
                assert(data@ =~= self.data@.take(i + 1 as int));
            }
            i += 1;
        }
        proof {
            assert(self.data@.take(self.data@.len() as int) =~= self.data@);
        }
        Frame { data, width: self.width, height: self.height }
    }
}

/// The single-slot frame buffer shared between the decode callback and the
/// display reader.
#[derive(Debug)]
pub struct FrameSink {
    /// The latest complete frame, if any arrived since the last clear.
    pub slot: Option<Frame>,
}

impl FrameSink {
    /// An empty sink.
    pub fn new() -> (s: FrameSink)
        ensures
            s.slot is None,
    {
        FrameSink { slot: None }
    }

    /// Store a new frame, replacing whatever was there: last write wins, no
    /// queue, no backpressure.
    pub fn store(&mut self, frame: Frame)
        ensures
            final(self).slot matches Some(f) && f == frame,
    {
        self.slot = Some(frame);
    }

    /// Read the latest frame as an independent snapshot; `None` while no
    /// frame has arrived.
    pub fn latest(&self) -> (r: Option<Frame>)
        ensures
            match self.slot {
                Option::Some(f) => r matches Some(c) && c.data@ == f.data@ && c.width == f.width
                    && c.height == f.height,
                Option::None => r is None,
            },
    {
        match &self.slot {
            Some(f) => Some(f.snapshot()),
            None => None,
        }
    }

    /// Drop the stored frame, as teardown does.
    pub fn clear(&mut self)
        ensures
            final(self).slot is None,
    {
        self.slot = None;
    }
}

} // verus!
