//! The fan-out medium for session events, and the stream a subscriber reads.
//!
//! Events travel through a `tokio` broadcast channel: one producer side that
//! never blocks, and any number of receivers, each with its own position.
//! A subscriber's stream first replays a snapshot that was taken when it
//! subscribed, and only then hands out what the channel delivers.

use std::collections::VecDeque;
use vstd::prelude::*;

verus! {

/// `tokio::sync::broadcast::Sender`, the producer side of a channel. The
/// library carries it and sees nothing inside.
#[verifier::external_type_specification]
#[verifier::external_body]
#[verifier::reject_recursive_types(T)]
pub struct ExSender<T>(tokio::sync::broadcast::Sender<T>);

/// `tokio::sync::broadcast::Receiver`, one subscriber's side of a channel.
/// The library carries it and sees nothing inside.
#[verifier::external_type_specification]
#[verifier::external_body]
#[verifier::reject_recursive_types(T)]
pub struct ExReceiver<T>(tokio::sync::broadcast::Receiver<T>);

/// The largest capacity a broadcast channel can be made with.
pub const MAX_CHANNEL_CAPACITY: usize = usize::MAX / 2;

/// Why a stream had nothing to hand out.
#[derive(Clone, Copy, Debug, PartialEq, Eq, Structural)]
pub enum StreamError {
    /// Nothing is waiting, but the producer is still there.
    Empty,
    /// The producer is gone and nothing is waiting.
    Closed,
    /// The subscriber fell behind and this many events were overwritten.
    Lagged(u64),
}

/// `tokio::sync::broadcast::Sender::new`: the producer side of a new
/// channel that keeps at most `capacity` events for a slow receiver. The
/// call panics on a capacity of zero or above half of `usize::MAX`, which
/// the precondition leaves out. Nothing is claimed of the result.
#[verifier::external_body]
pub(crate) fn channel_with_capacity<T>(capacity: usize) -> (tx: tokio::sync::broadcast::Sender<T>)
    requires
        0 < capacity <= MAX_CHANNEL_CAPACITY,
{
    tokio::sync::broadcast::Sender::new(capacity)
}

/// `tokio::sync::broadcast::Sender::send`: hands the value to every
/// receiver there is at this moment. With no receiver the value is dropped;
/// either way the call returns, and its result is not looked at.
#[verifier::external_body]
pub(crate) fn channel_send<T>(tx: &tokio::sync::broadcast::Sender<T>, value: T) {
    let _ = tx.send(value);
}

/// `tokio::sync::broadcast::Sender::subscribe`: a new receiver that sees
/// what is sent after this call. Nothing is claimed of the result.
#[verifier::external_body]
pub(crate) fn channel_subscribe<T>(tx: &tokio::sync::broadcast::Sender<T>) -> (rx:
    tokio::sync::broadcast::Receiver<T>) {
    tx.subscribe()
}

/// `Clone::clone` of a `tokio::sync::broadcast::Sender`: a second handle on
/// the same channel. Nothing is claimed of the result.
#[verifier::external_body]
pub(crate) fn channel_share<T>(tx: &tokio::sync::broadcast::Sender<T>) -> (other:
    tokio::sync::broadcast::Sender<T>) {
    tx.clone()
}

/// `tokio::sync::broadcast::Receiver::try_recv`: the next value that waits
/// for this receiver, without blocking, or the reason there is none. What
/// comes back depends on what other handles of the channel did, so nothing
/// is claimed of it.
#[verifier::external_body]
pub(crate) fn channel_try_recv<T: Clone>(rx: &mut tokio::sync::broadcast::Receiver<T>) -> (r: Result<
    T,
    StreamError,
>) {
    match rx.try_recv() {
        Ok(value) => Ok(value),
        Err(tokio::sync::broadcast::error::TryRecvError::Empty) => Err(StreamError::Empty),
        Err(tokio::sync::broadcast::error::TryRecvError::Closed) => Err(StreamError::Closed),
        Err(tokio::sync::broadcast::error::TryRecvError::Lagged(n)) => Err(StreamError::Lagged(n)),
    }
}

/// What one subscriber reads: first the replay of the snapshot taken when it
/// subscribed, then the live events of the channel.
#[verifier::reject_recursive_types(T)]
pub struct EventStream<T> {
    snapshot: VecDeque<T>,
    rx: tokio::sync::broadcast::Receiver<T>,
}

impl<T: Clone> EventStream<T> {
    /// The part of the snapshot that is still to be handed out, oldest
    /// first.
    pub closed spec fn replay(&self) -> Seq<T> {
        self.snapshot@
    }

    /// The receiver that the stream reads live events from.
    pub closed spec fn receiver(&self) -> tokio::sync::broadcast::Receiver<T> {
        self.rx
    }

    /// A stream that replays `snapshot` and then reads from `rx`.
    pub(crate) fn new(snapshot: VecDeque<T>, rx: tokio::sync::broadcast::Receiver<T>) -> (s: Self)
        ensures
            s.replay() == snapshot@,
            s.receiver() == rx,
    {
        EventStream { snapshot, rx }
    }

    /// The next replayed event, if the replay is not over.
    pub fn next_replayed(&mut self) -> (r: Option<T>)
        ensures
            old(self).replay().len() > 0 ==> {
                &&& r == Some(old(self).replay()[0])
                &&& final(self).replay() == old(self).replay().skip(1)
            },
            old(self).replay().len() == 0 ==> {
                &&& r is None
                &&& final(self).replay() == old(self).replay()
            },
    {
        let ghost before = self.snapshot@;
        let r = self.snapshot.pop_front();
        proof {
            if before.len() > 0 {
                assert(before.skip(1) =~= before.subrange(1, before.len() as int));
            }
        }
        r
    }

    /// The next event without waiting. While the replay lasts this is its
    /// first event, and the replay loses it. After that it is whatever the
    /// channel has for this subscriber, and the replay stays empty.
    pub fn try_recv(&mut self) -> (r: Result<T, StreamError>)
        ensures
            old(self).replay().len() > 0 ==> {
                &&& r == Ok::<T, StreamError>(old(self).replay()[0])
                &&& final(self).replay() == old(self).replay().skip(1)
            },
            old(self).replay().len() == 0 ==> final(self).replay() == old(self).replay(),
    {
        match self.next_replayed() {
            Some(v) => Ok(v),
            None => channel_try_recv(&mut self.rx),
        }
    }

    /// The live side of the stream, for a reader that waits on the channel
    /// once the replay is over. The reference is to the stream's own
    /// receiver: whatever the reader leaves behind it is the receiver the
    /// stream goes on with. The replay is not touched.
    pub fn live(&mut self) -> (rx: &mut tokio::sync::broadcast::Receiver<T>)
        ensures
            *rx == old(self).receiver(),
            final(self).receiver() == *final(rx),
            final(self).replay() == old(self).replay(),
    {
        &mut self.rx
    }
}

} // verus!
