//! The producer side of the block relay: samples are gathered into blocks
//! of a fixed size, and each full block is offered to a channel without
//! ever waiting for the consumer.

use crossbeam_channel::Sender;
use crossbeam_channel::TrySendError;
use vstd::prelude::*;

verus! {

/// Number of samples in one relayed block.
pub const SEND_BUF_SIZE: usize = 4800;

/// Number of blocks that the relay holds before it drops new ones: at the
/// faster of the two interfaces, a little under half a second of audio.
pub const RELAY_CAPACITY: usize = 64;

/// The sending half of a channel of the crate `crossbeam_channel`. Nothing
/// is known of what the channel holds: the consumer empties it from another
/// thread.
#[verifier::external_type_specification]
#[verifier::external_body]
#[verifier::reject_recursive_types(T)]
pub struct ExSender<T>(Sender<T>);

/// What became of a block that was offered to the channel.
#[derive(Debug, Clone, Copy, PartialEq, Eq, Structural)]
pub enum SendOutcome {
    /// The channel took the block.
    Delivered,
    /// The channel was full: the block is lost.
    Full,
    /// The consumer is gone: the block is lost.
    Closed,
}

impl SendOutcome {
    /// A block is lost unless the channel took it.
    pub open spec fn spec_is_lost(&self) -> bool {
        *self != SendOutcome::Delivered
    }

    #[verifier::when_used_as_spec(spec_is_lost)]
    pub fn is_lost(&self) -> (r: bool)
        ensures
            r == self.spec_is_lost(),
    {
        match self {
            SendOutcome::Delivered => false,
            SendOutcome::Full => true,
            SendOutcome::Closed => true,
        }
    }
}

/// How many blocks a run of samples completed, and how many of those the
/// channel did not take.
#[derive(Debug, Clone, Copy, PartialEq, Eq, Structural)]
pub struct SendReport {
    pub offered: usize,
    pub lost: usize,
}

/// Calls `Sender::try_send` of `crossbeam_channel`, which returns at once
/// whether or not the channel has room. The outcome depends on the
/// consumer, so nothing is claimed of it.
#[verifier::external_body]
fn offer(
    sender: &Sender<([i32; SEND_BUF_SIZE], i64)>,
    block: ([i32; SEND_BUF_SIZE], i64),
) -> (outcome: SendOutcome) {
    match sender.try_send(block) {
        Ok(()) => SendOutcome::Delivered,
        Err(TrySendError::Full(_)) => SendOutcome::Full,
        Err(TrySendError::Disconnected(_)) => SendOutcome::Closed,
    }
}

/// Gathers samples into blocks and offers each full block to the relay.
pub struct AudioSender {
    buffer: ([i32; SEND_BUF_SIZE], i64),
    index: usize,
    sender: Sender<([i32; SEND_BUF_SIZE], i64)>,
}

impl AudioSender {
    #[verifier::type_invariant]
    spec fn inv(self) -> bool {
        self.index < SEND_BUF_SIZE
    }

    /// The samples gathered so far for the block under way.
    pub closed spec fn pending(self) -> Seq<i32> {
        self.buffer.0@.take(self.index as int)
    }

    /// The capture timestamp that the block under way will carry.
    pub closed spec fn timestamp(self) -> i64 {
        self.buffer.1
    }

    /// The sending half of the channel that full blocks are offered to.
    pub closed spec fn channel(self) -> Sender<([i32; SEND_BUF_SIZE], i64)> {
        self.sender
    }

    /// A sender that offers its blocks to the given channel, with an empty
    /// block and timestamp zero.
    pub fn new(sender: Sender<([i32; SEND_BUF_SIZE], i64)>) -> (s: Self)
        ensures
            s.channel() == sender,
            s.pending() == Seq::<i32>::empty(),
            s.timestamp() == 0,
    {
        AudioSender { sender, index: 0, buffer: ([0i32; SEND_BUF_SIZE], 0) }
    }

    /// Sets the timestamp of the block under way.
    pub fn set_timestamp(&mut self, ts: i64)
        ensures
            final(self).channel() == old(self).channel(),
            final(self).pending() == old(self).pending(),
            final(self).timestamp() == ts,
    {
        proof {
            use_type_invariant(&*self);
        }
        self.buffer.1 = ts;
    }

    /// Number of samples gathered for the block under way.
    pub fn pending_len(&self) -> (n: usize)
        ensures
            n == self.pending().len(),
            n < SEND_BUF_SIZE,
    {
        proof {
            use_type_invariant(self);
        }
        self.index
    }

    /// Adds one sample to the block under way. When that completes the
    /// block, the block is handed back and a new one begins.
    pub fn push_sample(&mut self, sample: i32) -> (full: Option<([i32; SEND_BUF_SIZE], i64)>)
        ensures
            final(self).channel() == old(self).channel(),
            final(self).timestamp() == old(self).timestamp(),
            old(self).pending().len() + 1 < SEND_BUF_SIZE ==> {
                &&& full is None
                &&& final(self).pending() == old(self).pending().push(sample)
            },
            old(self).pending().len() + 1 == SEND_BUF_SIZE ==> {
                &&& full matches Some(block)
                &&& block.0@ == old(self).pending().push(sample)
                &&& block.1 == old(self).timestamp()
                &&& final(self).pending() == Seq::<i32>::empty()
            },
    {
        proof {
            use_type_invariant(&*self);
        }
        self.buffer.0[self.index] = sample;
        let next = self.index + 1;
        if next == SEND_BUF_SIZE {
            self.index = 0;
            Some(self.buffer)
        } else {
            self.index = next;
            None
        }
    }

    /// Adds one sample to the block under way. A block that this completes
    /// is offered to the relay at once, and is lost if the relay does not
    /// take it: the sender is ready for the next sample either way.
    pub fn send_sample(&mut self, sample: i32) -> (outcome: Option<SendOutcome>)
        ensures
            final(self).channel() == old(self).channel(),
            final(self).timestamp() == old(self).timestamp(),
            old(self).pending().len() + 1 < SEND_BUF_SIZE ==> {
                &&& outcome is None
                &&& final(self).pending() == old(self).pending().push(sample)
            },
            old(self).pending().len() + 1 == SEND_BUF_SIZE ==> {
                &&& outcome is Some
                &&& final(self).pending() == Seq::<i32>::empty()
            },
    {
        match self.push_sample(sample) {
            Some(block) => Some(offer(&self.sender, block)),
            None => None,
        }
    }

    /// Sends a run of samples in order, one by one.
    pub fn send_samples(&mut self, samples: &[i32]) -> (report: SendReport)
        ensures
            final(self).channel() == old(self).channel(),
            final(self).timestamp() == old(self).timestamp(),
            report.offered == (old(self).pending().len() + samples@.len()) / (SEND_BUF_SIZE as nat),
            report.lost <= report.offered,
            final(self).pending() == (old(self).pending() + samples@).skip(
                report.offered * SEND_BUF_SIZE,
            ),
    {
        let ghost all = old(self).pending() + samples@;
        let ghost start = old(self).pending().len() as int;
        let mut offered: usize = 0;
        let mut lost: usize = 0;
        let mut i: usize = 0;
        proof {
            use_type_invariant(&*self);
            assert(self.pending() =~= all.take(start).skip(0));
        }
        while i < samples.len()
            invariant
                i <= samples.len(),
                start == old(self).pending().len(),
                start < SEND_BUF_SIZE,
                all == old(self).pending() + samples@,
                self.channel() == old(self).channel(),
                self.timestamp() == old(self).timestamp(),
                lost <= offered <= i,
                offered * SEND_BUF_SIZE <= start + i < (offered + 1) * SEND_BUF_SIZE,
                self.pending() == all.take(start + i).skip(offered * SEND_BUF_SIZE),
            decreases samples.len() - i,
        {
            let ghost before = self.pending();
            assert(all[start + i] == samples@[i as int]);
            assert(all.take(start + i + 1).skip(offered * SEND_BUF_SIZE) =~= before.push(
                samples@[i as int],
            ));
            match self.send_sample(samples[i]) {
                Some(outcome) => {
                    if outcome.is_lost() {
                        lost = lost + 1;
                    }
                    offered = offered + 1;
                    assert(self.pending() =~= all.take(start + i + 1).skip(
                        offered * SEND_BUF_SIZE,
                    ));
                },
                None => {},
            }
            i = i + 1;
        }
        proof {
            assert(all.take(start + i) =~= all);
        }
        SendReport { offered, lost }
    }
}

} // verus!
