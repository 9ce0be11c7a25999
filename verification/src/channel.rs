//! The sending end of the event channel. Sending never blocks: an event that
//! the channel does not take is dropped.

use crate::model::{EventView, InstallerEvent};
use crate::text::to_chars;
use crate::text::from_chars;
use crossbeam_channel::Sender;
use vstd::prelude::*;

verus! {

/// `crossbeam_channel::Sender`, the sending side of a channel. Nothing is
/// known of what a value of it holds.
#[verifier::external_type_specification]
#[verifier::external_body]
#[verifier::reject_recursive_types(T)]
pub struct ExSender<T>(Sender<T>);

/// Calls `crossbeam_channel::Sender::try_send` and drops its result: the
/// event is taken by the channel or lost, and the caller is not held up
/// either way. Nothing is claimed of what the receiver sees.
#[verifier::external_body]
fn send_event(tx: &Sender<InstallerEvent>, evt: InstallerEvent) {
    let _ = tx.try_send(evt);
}

/// A handle to the event channel that remembers, for proofs, what was handed
/// to it.
pub struct EventSender {
    tx: Sender<InstallerEvent>,
    offered: Ghost<Seq<EventView>>,
}

impl EventSender {
    /// The events handed to this handle so far, oldest first.
    pub closed spec fn offered(&self) -> Seq<EventView> {
        self.offered@
    }

    /// A handle on `tx` to which nothing has been handed yet.
    pub fn new(tx: Sender<InstallerEvent>) -> (s: EventSender)
        ensures
            s.offered() == Seq::<EventView>::empty(),
    {
        EventSender { tx, offered: Ghost(Seq::empty()) }
    }

    /// Hands `evt` to the channel without waiting.
    pub fn send(&mut self, evt: InstallerEvent)
        ensures
            final(self).offered() == old(self).offered().push(evt@),
    {
        let ghost v = evt@;
        send_event(&self.tx, evt);
        self.offered = Ghost(self.offered@.push(v));
    }

    /// Hands a log line to the channel.
    pub fn log(&mut self, line: &str)
        ensures
            final(self).offered() == old(self).offered().push(EventView::Log(line@)),
    {
        let text = from_chars(&to_chars(line));
        self.send(InstallerEvent::Log(text));
    }
}

} // verus!
