//! Main-thread marshaling.
//!
//! The host owns exactly one message-loop thread. Work reaches it as an
//! owned unit posted to the subclassed window with a dedicated message
//! identifier; the subclass handler, running on the host thread, takes each
//! unit in post order, runs it exactly once, and releases it. What the
//! bridge posts is the submission of one synthetic control record, so the
//! queue is modeled as the records waiting for the host loop to pump them.
//! Posting is fire-and-forget: results flow back only through the record's
//! reply channel.

use vstd::prelude::*;

use crate::shim::ShimInstance;

verus! {

/// A raw, host-layout-compatible control record built by the bridge: sized
/// to the host's native control-record type, its dispatch pointer redirected
/// to a shim instance, its target-object field set to the sentinel meaning
/// "no game-object target", and the request's script text written into its
/// embedded buffer. Ownership passes to the host's input pipeline once
/// submitted.
pub struct SyntheticRecord {
    /// Byte size the record was allocated with.
    pub size: usize,
    /// The per-request table copy whose appended slot carries the context.
    pub shim: ShimInstance,
    /// The record's target-object field.
    pub target_obj: i32,
    /// The script text in the record's embedded buffer field.
    pub script: String,
}

/// Work queued for the host's message loop, delivered in post order.
pub struct Marshaler {
    queue: Vec<SyntheticRecord>,
}

impl Marshaler {
    /// The posted work the host loop has not pumped yet, oldest first.
    pub closed spec fn spec_queue(&self) -> Seq<SyntheticRecord> {
        self.queue@
    }

    /// A marshaler with nothing posted.
    pub fn new() -> (r: Marshaler)
        ensures
            r.spec_queue() == Seq::<SyntheticRecord>::empty(),
    {
        Marshaler { queue: Vec::new() }
    }

    /// How many posted units await the host loop.
    pub fn len(&self) -> (r: usize)
        ensures
            r == self.spec_queue().len(),
    {
        self.queue.len()
    }

    /// Posts one unit of work for the host thread. Fire-and-forget: nothing
    /// says when the host loop will next pump messages, only that units are
    /// delivered in post order.
    pub fn post(&mut self, work: SyntheticRecord)
        ensures
            final(self).spec_queue() == old(self).spec_queue().push(work),
    {
        self.queue.push(work);
    }

    /// What the host loop does when it next pumps: the oldest posted unit is
    /// taken, exactly once, in post order.
    pub fn take_next(&mut self) -> (r: Option<SyntheticRecord>)
        ensures
            old(self).spec_queue().len() == 0 ==> r is None && final(self).spec_queue() == old(
                self,
            ).spec_queue(),
            old(self).spec_queue().len() > 0 ==> r == Option::Some(old(self).spec_queue()[0])
                && final(self).spec_queue() == old(self).spec_queue().skip(1),
    {
        if self.queue.len() == 0 {
            Option::None
        } else {
            let front = self.queue.remove(0);
            proof {
                assert(self.queue@ =~= old(self).spec_queue().skip(1));
            }
            Option::Some(front)
        }
    }
}

} // verus!
