//! The transport's side of the event channel: what the transport notifies
//! becomes an event and is published to every subscriber.

use vstd::prelude::*;

use crate::event::{exit_code_of, EventView, SshEvent, SIGNAL_EXIT_CODE, STDERR_STREAM};
use crate::stream::channel_send;

verus! {

/// A handle on a session's event channel for the transport's notifications.
/// It publishes without touching the session, so the transport can run on
/// its own path.
pub struct InboundEvents {
    tx: tokio::sync::broadcast::Sender<SshEvent>,
    published: Ghost<Seq<EventView>>,
}

impl InboundEvents {
    /// Every event this handle has published, oldest first.
    pub closed spec fn published(&self) -> Seq<EventView> {
        self.published@
    }

    /// A handle that publishes on `tx` and has published nothing yet.
    pub(crate) fn new(tx: tokio::sync::broadcast::Sender<SshEvent>) -> (inbound: Self)
        ensures
            inbound.published() == Seq::<EventView>::empty(),
    {
        InboundEvents { tx, published: Ghost(Seq::empty()) }
    }

    /// Hands one event to the channel and records that it was published.
    fn publish(&mut self, event: SshEvent)
        ensures
            final(self).published() == old(self).published().push(event@),
    {
        let ghost seen = event@;
        channel_send(&self.tx, event);
        self.published = Ghost(self.published@.push(seen));
    }

    /// Ordinary channel data: published as standard output.
    pub fn on_data(&mut self, data: &[u8])
        ensures
            final(self).published() == old(self).published().push(
                EventView::Stdout { data: data@ },
            ),
    {
        self.publish(SshEvent::from_data(data));
    }

    /// Extended channel data: published as standard error where it came on
    /// the error stream, and as standard output otherwise.
    pub fn on_extended_data(&mut self, ext: u32, data: &[u8])
        ensures
            ext == STDERR_STREAM ==> final(self).published() == old(self).published().push(
                EventView::Stderr { data: data@ },
            ),
            ext != STDERR_STREAM ==> final(self).published() == old(self).published().push(
                EventView::Stdout { data: data@ },
            ),
    {
        self.publish(SshEvent::from_extended_data(ext, data));
    }

    /// The remote process exited with a status: published as an exit
    /// without a signal.
    pub fn on_exit_status(&mut self, exit_status: u32)
        ensures
            final(self).published() == old(self).published().push(
                EventView::Exit { exit_code: exit_code_of(exit_status), signal: None },
            ),
    {
        self.publish(SshEvent::from_exit_status(exit_status));
    }

    /// A signal ended the remote process: published as an exit with the
    /// fixed code and the signal's name.
    pub fn on_exit_signal(&mut self, signal_name: String)
        ensures
            final(self).published() == old(self).published().push(
                EventView::Exit { exit_code: SIGNAL_EXIT_CODE as int, signal: Some(signal_name@) },
            ),
    {
        self.publish(SshEvent::from_exit_signal(signal_name));
    }
}

} // verus!
