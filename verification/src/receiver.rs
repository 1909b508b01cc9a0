//! The event queue of a lobby and the handle that drains it.

use vstd::prelude::*;

use crate::event::Event;

verus! {

/// The receiving side of a lobby: the queue into which the accept loop and
/// every reader publish, and from which the consumer drains.
///
/// The queue is unbounded and first-in, first-out. Its view is the sequence
/// of events that were published and not yet drained, oldest first.
pub struct LobbyReceiver<Data> {
    queue: Vec<Event<Data>>,
}

impl<Data> View for LobbyReceiver<Data> {
    type V = Seq<Event<Data>>;

    closed spec fn view(&self) -> Seq<Event<Data>> {
        self.queue@
    }
}

impl<Data> LobbyReceiver<Data> {
    /// A receiver with nothing queued.
    pub fn new() -> (receiver: LobbyReceiver<Data>)
        ensures
            receiver@ == Seq::<Event<Data>>::empty(),
    {
        LobbyReceiver { queue: Vec::new() }
    }

    /// Appends `event` behind everything that is queued.
    pub fn publish(&mut self, event: Event<Data>)
        ensures
            final(self)@ == old(self)@.push(event),
    {
        self.queue.push(event);
    }

    /// What a drain does to a queue: the events it hands out, and the queue
    /// it leaves.
    pub open spec fn drain(queued: Seq<Event<Data>>) -> (Seq<Event<Data>>, Seq<Event<Data>>) {
        (queued, Seq::empty())
    }

    /// Takes everything that is queued, oldest first, and leaves the queue
    /// empty. It never waits: with nothing queued it returns nothing.
    pub fn events(&mut self) -> (drained: Vec<Event<Data>>)
        ensures
            (drained@, final(self)@) == Self::drain(old(self)@),
    {
        let mut drained: Vec<Event<Data>> = Vec::new();
        core::mem::swap(&mut self.queue, &mut drained);
        drained
    }

    /// Of two drains with nothing published in between, the first hands out
    /// all that was queued, in order, and the second hands out nothing.
    pub proof fn lemma_second_drain_is_empty(queued: Seq<Event<Data>>)
        ensures
            Self::drain(queued).0 == queued,
            Self::drain(Self::drain(queued).1).0 == Seq::<Event<Data>>::empty(),
    {
    }
}

} // verus!
