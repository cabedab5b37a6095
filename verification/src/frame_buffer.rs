//! A latest-value frame hand-off buffer.
//!
//! The buffer keeps exactly two slots, each holding at most one
//! reference-counted frame, plus a single-bit selector naming the slot
//! that is currently readable. A write always lands in the slot opposite
//! the selector and then flips the selector, so the flip is the sole
//! publish point. A read returns another reference to the frame in the
//! readable slot, or nothing if no frame was ever published.
//!
//! There is no queue: when frames are published faster than they are
//! read, older unread frames are silently overwritten — the freshest
//! frame wins. Reading never removes a frame, so repeated reads with no
//! intervening write hand back references to the very same frame.

use vstd::prelude::*;
use std::sync::Arc;

verus! {

/// Two-slot latest-value buffer for reference-counted frames.
pub struct FrameBuffer<T> {
    /// Slot read when `reading` is false, written when it is true.
    slot0: Option<Arc<T>>,
    /// Slot read when `reading` is true, written when it is false.
    slot1: Option<Arc<T>>,
    /// Selector of the currently readable slot.
    reading: bool,
}

/// The abstract effect of one write on the readable contents: the new
/// frame replaces whatever was readable before.
pub open spec fn written<T>(prev: Option<T>, frame: T) -> Option<T> {
    Some(frame)
}

/// The readable contents after a whole sequence of writes.
pub open spec fn after_writes<T>(init: Option<T>, ws: Seq<T>) -> Option<T>
    decreases ws.len(),
{
    if ws.len() == 0 {
        init
    } else {
        after_writes(written(init, ws[0]), ws.drop_first())
    }
}

/// Relies on std's Arc::clone: the returned handle refers to the same
/// allocation as the argument, so it carries the same value.
#[verifier::external_body]
fn arc_clone<T>(a: &Arc<T>) -> (r: Arc<T>)
    ensures
        r == *a,
{
    Arc::clone(a)
}

impl<T> FrameBuffer<T> {
    /// The frame currently published for readers, if any.
    pub closed spec fn latest(&self) -> Option<Arc<T>> {
        if self.reading {
            self.slot1
        } else {
            self.slot0
        }
    }

    /// An empty buffer: nothing has been published yet.
    pub fn new() -> (buf: Self)
        ensures
            buf.latest() is None,
    {
        FrameBuffer { slot0: None, slot1: None, reading: false }
    }

    /// Publish a frame: store it in the slot opposite the current
    /// selector, then flip the selector. The previously readable frame
    /// (if any) is overwritten on the following write; no queue forms.
    /// Exactly one producer publishes: the exclusive borrow enforces
    /// the single-writer discipline.
    pub fn write(&mut self, frame: Arc<T>)
        ensures
            final(self).latest() == written(old(self).latest(), frame),
            final(self).latest() == Some(frame),
    {
        if self.reading {
            self.slot0 = Some(frame);
        } else {
            self.slot1 = Some(frame);
        }
        self.reading = !self.reading;
    }

    /// Retrieve a reference to the latest published frame, or `None` if
    /// no frame has ever been published. The buffer is unchanged, so
    /// consecutive reads with no intervening write return references to
    /// the same frame.
    pub fn read(&self) -> (r: Option<Arc<T>>)
        ensures
            r == self.latest(),
    {
        let slot = if self.reading {
            &self.slot1
        } else {
            &self.slot0
        };
        match slot {
            Some(frame) => Some(arc_clone(frame)),
            None => None,
        }
    }
}

/// Law: after any non-empty sequence of writes, the readable contents
/// are exactly the payload of the last write — nothing staler, nothing
/// mixed.
pub proof fn lemma_latest_write_wins<T>(init: Option<T>, ws: Seq<T>)
    requires
        ws.len() > 0,
    ensures
        after_writes(init, ws) == Some(ws.last()),
    decreases ws.len(),
{
    if ws.len() == 1 {
        assert(after_writes(init, ws) == after_writes(Some(ws[0]), ws.drop_first()));
        assert(ws.last() == ws[0]);
    } else {
        lemma_latest_write_wins(written(init, ws[0]), ws.drop_first());
        assert(ws.drop_first().last() == ws.last());
    }
}

/// Law: before any write has happened, the buffer reads as empty.
pub proof fn lemma_empty_before_first_write<T>(ws: Seq<T>)
    requires
        ws.len() == 0,
    ensures
        after_writes(None::<T>, ws) is None,
{
}

} // verus!
