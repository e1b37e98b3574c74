//! Cross-task message plumbing of the orchestrator: the message type the
//! concurrency units exchange and the bounded queue that routes requests to
//! the unit that exclusively owns the network stack.
//!
//! The stack object itself never crosses a task boundary; a higher-priority
//! unit asks for a resynchronization by enqueueing a message, and a full
//! queue drops the request — resync is best effort, never guaranteed.

use vstd::prelude::*;

verus! {

use crate::clock::Timestamp;
use crate::mqtt::{dec_chars, u64_to_string};
use vstd::string::*;

/// Depth of the orchestrator message queue.
pub const MESSAGE_CHANNEL_DEPTH: usize = 8;

/// A message routed to the network-owner unit.
#[derive(Debug, Clone)]
pub enum NetworkMessage {
    /// Ask the owner unit to run a time synchronization.
    SntpSync,
    /// Hand the owner unit a line of text to log.
    LogFrame {
        /// The text to log.
        data: String,
    },
}

/// The bounded queue between the requesting units and the network owner:
/// first in, first out, depth 8, refusing instead of blocking when full.
pub struct MessageChannel {
    queue: Vec<NetworkMessage>,
}

impl MessageChannel {
    /// The messages in flight, oldest first.
    pub closed spec fn view(&self) -> Seq<NetworkMessage> {
        self.queue@
    }

    /// The queue never holds more than its depth.
    pub open spec fn wf(self) -> bool {
        self@.len() <= MESSAGE_CHANNEL_DEPTH
    }

    /// An empty channel.
    pub fn new() -> (r: MessageChannel)
        ensures
            r@ =~= Seq::<NetworkMessage>::empty(),
            r.wf(),
    {
        MessageChannel { queue: Vec::new() }
    }

    /// Number of messages in flight.
    pub fn len(&self) -> (r: usize)
        ensures
            r == self@.len(),
    {
        self.queue.len()
    }

    /// Enqueue a message.  A full channel refuses and stays as it was: the
    /// caller drops the request and logs it.
    pub fn send(&mut self, msg: NetworkMessage) -> (r: bool)
        requires
            old(self).wf(),
        ensures
            final(self).wf(),
            old(self)@.len() >= MESSAGE_CHANNEL_DEPTH ==> !r && final(self)@ =~= old(self)@,
            old(self)@.len() < MESSAGE_CHANNEL_DEPTH ==> r && final(self)@ =~= old(self)@.push(
                msg,
            ),
    {
        if self.queue.len() >= MESSAGE_CHANNEL_DEPTH {
            return false;
        }
        self.queue.push(msg);
        true
    }

    /// Dequeue the oldest message, if any.
    pub fn recv(&mut self) -> (r: Option<NetworkMessage>)
        requires
            old(self).wf(),
        ensures
            final(self).wf(),
            old(self)@.len() == 0 ==> r is None && final(self)@ =~= old(self)@,
            old(self)@.len() > 0 ==> (r matches Some(m) && m == old(self)@[0] && final(self)@
                =~= old(self)@.drop_first()),
    {
        if self.queue.len() == 0 {
            return None;
        }
        let m = self.queue.remove(0);
        Some(m)
    }
}

/// The text a frame-logging unit enqueues: the wall-clock second count
/// once the clock is synced, else the raw monotonic count with a warning
/// that the zero sentinel means "unknown".
pub open spec fn frame_message_spec(ts: Timestamp, mono_micros: int) -> Seq<char> {
    if ts.unix_secs == 0 {
        "Frame at "@ + dec_chars(mono_micros) + " us (clock not synced)"@
    } else {
        "Frame at "@ + dec_chars(ts.unix_secs as int) + " UTC"@
    }
}

/// Format the log line for one frame.
pub fn format_frame_message(ts: Timestamp, mono_micros: u32) -> (r: String)
    ensures
        r@ == frame_message_spec(ts, mono_micros as int),
{
    let mut s = String::from_str("Frame at ");
    if ts.unix_secs == 0 {
        let mono_str = u64_to_string(mono_micros as u64);
        s.append(mono_str.as_str());
        s.append(" us (clock not synced)");
    } else {
        let secs_str = u64_to_string(ts.unix_secs);
        s.append(secs_str.as_str());
        s.append(" UTC");
    }
    s
}

} // verus!
