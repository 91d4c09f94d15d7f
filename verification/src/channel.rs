//! The frame channel: the handoff of decoded pixel buffers from loaders and
//! the network receiver to the presentation side.
//!
//! Messages are delivered strictly in publish order, and the consumer polls
//! without blocking: polling an empty channel reports "no frame available"
//! instead of suspending.  This module is the channel's logical contract;
//! whatever cross-thread transport carries the messages re-publishes them
//! here, on the presentation thread, in arrival order.

use vstd::prelude::*;

use crate::buffer::PixelBuffer;
use crate::buffer::PixelBufferV;

verus! {

/// Where a frame came from.  The presentation side is source-agnostic; the
/// tag only surfaces in diagnostics.
#[derive(Clone, Copy, PartialEq, Eq, Structural, Debug)]
pub enum SourceTag {
    File,
    Network,
}

/// One published frame: the decoded buffer, the load generation it belongs
/// to, and its source.
pub struct FrameMsg {
    pub generation: u64,
    pub tag: SourceTag,
    pub buffer: PixelBuffer,
}

/// Mathematical model of a `FrameMsg`.
pub struct FrameMsgV {
    pub generation: u64,
    pub tag: SourceTag,
    pub buffer: PixelBufferV,
}

impl View for FrameMsg {
    type V = FrameMsgV;

    open spec fn view(&self) -> FrameMsgV {
        FrameMsgV { generation: self.generation, tag: self.tag, buffer: self.buffer@ }
    }
}

/// First-in-first-out queue of published frames.
pub struct FrameChannel {
    queue: Vec<FrameMsg>,
}

impl View for FrameChannel {
    type V = Seq<FrameMsgV>;

    closed spec fn view(&self) -> Seq<FrameMsgV> {
        self.queue@.map_values(|m: FrameMsg| m@)
    }
}

impl FrameChannel {
    pub fn new() -> (r: Self)
        ensures
            r@ == Seq::<FrameMsgV>::empty(),
    {
        let r = FrameChannel { queue: Vec::new() };
        proof {
            assert(r@ =~= Seq::<FrameMsgV>::empty());
        }
        r
    }

    pub fn len(&self) -> (r: usize)
        ensures
            r == self@.len(),
    {
        self.queue.len()
    }

    /// Appends a frame behind every frame published before it.
    pub fn publish(&mut self, msg: FrameMsg)
        ensures
            final(self)@ == old(self)@.push(msg@),
    {
        self.queue.push(msg);
        proof {
            assert(self@ =~= old(self)@.push(msg@));
        }
    }

    /// Removes and returns the oldest pending frame; `None` - and no change
    /// - exactly when the channel is empty.  Never blocks.
    pub fn poll(&mut self) -> (r: Option<FrameMsg>)
        ensures
            r is Some <==> old(self)@.len() > 0,
            old(self)@.len() == 0 ==> final(self)@ == old(self)@,
            old(self)@.len() > 0 ==> (r matches Some(m) && m@ == old(self)@[0] && final(self)@
                == old(self)@.drop_first()),
    {
        if self.queue.len() == 0 {
            return None;
        }
        let ghost prev = self.queue@;
        let m = self.queue.remove(0);
        proof {
            assert(m@ == old(self)@[0]);
            assert(self@ =~= old(self)@.drop_first()) by {
                assert(self.queue@ == prev.remove(0));
                assert forall|k: int| 0 <= k < self.queue@.len() implies self@[k] == old(
                    self,
                )@.drop_first()[k] by {
                    assert(self@[k] == self.queue@[k]@);
                    assert(self.queue@[k] == prev[k + 1]);
                }
            }
        }
        Some(m)
    }
}

} // verus!
