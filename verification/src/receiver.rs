//! The network receiver's per-payload logic.
//!
//! The listener itself - binding a port, accepting connections, reading one
//! complete framed payload per connection - is transport work that stays
//! outside the crate.  What is verified here is what happens to each
//! payload: a readable, decodable payload becomes a frame tagged as coming
//! from the network; a connection or decode error is counted and swallowed,
//! so one bad payload never terminates the listener.

use vstd::prelude::*;

use crate::channel::FrameMsg;
use crate::channel::SourceTag;
use crate::decode::decode_static;
use crate::decode::static_decoding;

verus! {

/// Per-session receiver state: how many payloads became frames and how
/// many were dropped.  Counters saturate rather than overflow.
pub struct NetReceiver {
    delivered: u64,
    dropped: u64,
}

impl NetReceiver {
    pub fn new() -> (r: Self)
        ensures
            r.delivered() == 0,
            r.dropped() == 0,
    {
        NetReceiver { delivered: 0, dropped: 0 }
    }

    pub closed spec fn delivered(self) -> u64 {
        self.delivered
    }

    pub closed spec fn dropped(self) -> u64 {
        self.dropped
    }

    pub fn delivered_count(&self) -> (r: u64)
        ensures
            r == self.delivered(),
    {
        self.delivered
    }

    pub fn dropped_count(&self) -> (r: u64)
        ensures
            r == self.dropped(),
    {
        self.dropped
    }

    /// One payload's worth of work.  `payload` is `None` when the
    /// connection failed before a complete payload arrived.  Returns the
    /// frame to publish, tagged as network-sourced and carrying the
    /// caller's current generation; a failed connection or an undecodable
    /// payload returns `None` and is merely counted, never fatal.
    pub fn handle_payload(&mut self, payload: Option<Vec<u8>>, generation: u64) -> (r: Option<
        FrameMsg,
    >)
        ensures
            r is Some <==> (payload matches Some(b) && static_decoding(b@) is Some),
            r matches Some(m) ==> m@.tag == SourceTag::Network && m@.generation == generation
                && (payload matches Some(b) && static_decoding(b@) matches Some(t)
                && m@.buffer.width == t.0 && m@.buffer.height == t.1 && m@.buffer.data == t.2)
                && m.buffer.wf(),
            r is Some ==> final(self).delivered() == (if old(self).delivered() < u64::MAX {
                old(self).delivered() + 1
            } else {
                old(self).delivered() as int
            }) && final(self).dropped() == old(self).dropped(),
            r is None ==> final(self).dropped() == (if old(self).dropped() < u64::MAX {
                old(self).dropped() + 1
            } else {
                old(self).dropped() as int
            }) && final(self).delivered() == old(self).delivered(),
    {
        let bytes = match payload {
            None => {
                if self.dropped < u64::MAX {
                    self.dropped = self.dropped + 1;
                }
                return None;
            },
            Some(b) => b,
        };
        match decode_static(&bytes) {
            Ok(buffer) => {
                if self.delivered < u64::MAX {
                    self.delivered = self.delivered + 1;
                }
                Some(FrameMsg { generation, tag: SourceTag::Network, buffer })
            },
            Err(_) => {
                if self.dropped < u64::MAX {
                    self.dropped = self.dropped + 1;
                }
                None
            },
        }
    }
}

} // verus!
