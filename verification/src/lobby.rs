//! The accept loop of a lobby: it gives each new connection the next id,
//! until it is told to stop.

use core::marker::PhantomData;
use vstd::prelude::*;

use crate::address::Address;
use crate::connection::{Connection, ReaderLoop, ReaderState};
use crate::event::{Event, EventKind};
use crate::receiver::LobbyReceiver;
use crate::registry::Registry;
use crate::sender::LobbySender;

verus! {

/// What is known of an accept loop: the id that the next connection gets,
/// and whether the loop is still running.
pub struct AcceptState {
    pub next_id: nat,
    pub running: bool,
}

impl AcceptState {
    /// The loop of a lobby that was just made: running, with 0 as the first
    /// id.
    pub open spec fn fresh() -> AcceptState {
        AcceptState { next_id: 0, running: true }
    }

    /// The loop after it has looked for the stop signal. Once the signal has
    /// been seen the loop has stopped, and it stays so.
    pub open spec fn after_poll(self, signalled: bool) -> AcceptState {
        AcceptState { running: self.running && !signalled, ..self }
    }

    /// Whether the loop takes a new connection, given the connections that
    /// are `live`: it is running, an id is left to give, and that id is free.
    pub open spec fn accepts(self, live: Map<usize, Connection>) -> bool {
        &&& self.running
        &&& self.next_id < usize::MAX
        &&& !live.contains_key(self.next_id as usize)
    }

    /// The loop after it has taken a connection: the next id is one more.
    pub open spec fn after_accept(self) -> AcceptState {
        AcceptState { next_id: self.next_id + 1, ..self }
    }

    /// Every live connection has an id that was given out before.
    pub open spec fn ahead_of(self, live: Map<usize, Connection>) -> bool {
        forall|id: usize| live.contains_key(id) ==> id < self.next_id
    }
}

/// One thing that happens to the accept loop or to the registry of a lobby.
pub enum Happening {
    /// The loop looks for the stop signal, and finds it or not.
    Poll(bool),
    /// A connection comes in from this address.
    Arrival(Address),
    /// The reader of the connection with this id ends it.
    Loss(usize),
}

/// A lobby as its history has left it: the accept loop, the live
/// connections, and the ids that were given out, in the order of the
/// arrivals that got them.
pub struct Course {
    pub accept: AcceptState,
    pub live: Map<usize, Connection>,
    pub given: Seq<usize>,
}

impl Course {
    /// A lobby that was just made.
    pub open spec fn fresh() -> Course {
        Course { accept: AcceptState::fresh(), live: Map::empty(), given: Seq::empty() }
    }

    /// The lobby after one more happening: what `poll_stop`, `accept` and the
    /// end of a reader do to it.
    pub open spec fn next(self, happening: Happening) -> Course {
        match happening {
            Happening::Poll(signalled) => Course { accept: self.accept.after_poll(signalled), ..self },
            Happening::Arrival(addr) => if self.accept.accepts(self.live) {
                let id = self.accept.next_id as usize;
                Course {
                    accept: self.accept.after_accept(),
                    live: self.live.insert(id, Connection { id, addr }),
                    given: self.given.push(id),
                }
            } else {
                self
            },
            Happening::Loss(id) => Course { live: self.live.remove(id), ..self },
        }
    }

    /// The lobby after a whole history.
    pub open spec fn after(history: Seq<Happening>) -> Course
        decreases history.len(),
    {
        if history.len() == 0 {
            Course::fresh()
        } else {
            Course::after(history.drop_last()).next(history.last())
        }
    }

    /// Whatever happens to a lobby, in whatever order, the connections it
    /// accepts get the ids 0, 1, 2 and so on, in the order in which they were
    /// accepted. So no id is given twice, whether or not the connection that
    /// had it is still live, and every live connection has an id that was
    /// given out.
    pub proof fn lemma_ids_count_up(history: Seq<Happening>)
        ensures
            forall|k: int| 0 <= k < Course::after(history).given.len() ==> Course::after(history).given[k] == k,
            Course::after(history).accept.next_id == Course::after(history).given.len(),
            Course::after(history).accept.ahead_of(Course::after(history).live),
        decreases history.len(),
    {
        if history.len() > 0 {
            Self::lemma_ids_count_up(history.drop_last());
        }
    }

    /// Once the stop signal has been found, no arrival is accepted any more:
    /// nothing is given out or registered, whatever happens afterwards.
    pub proof fn lemma_stop_is_final(history: Seq<Happening>, later: Seq<Happening>)
        requires
            !Course::after(history).accept.running,
        ensures
            !Course::after(history + later).accept.running,
            Course::after(history + later).given == Course::after(history).given,
            Course::after(history + later).accept.next_id == Course::after(history).accept.next_id,
            forall|id: usize|
                Course::after(history + later).live.contains_key(id) ==> Course::after(history).live.contains_key(id),
        decreases later.len(),
    {
        if later.len() == 0 {
            assert(history + later =~= history);
        } else {
            Self::lemma_stop_is_final(history, later.drop_last());
            assert((history + later).drop_last() =~= history + later.drop_last());
            assert((history + later).last() == later.last());
        }
    }
}

/// The accept loop of one lobby. `Data` is the type of the payloads that its
/// connections carry.
pub struct Lobby<Data> {
    next_id: usize,
    running: bool,
    _phantom: PhantomData<Data>,
}

impl<Data> View for Lobby<Data> {
    type V = AcceptState;

    closed spec fn view(&self) -> AcceptState {
        AcceptState { next_id: self.next_id as nat, running: self.running }
    }
}

impl<Data> Lobby<Data> {
    /// Makes a lobby: the accept loop, running and about to give out id 0,
    /// a sender over an empty registry, and a receiver with nothing queued.
    pub fn spawn() -> (made: (Lobby<Data>, LobbySender, LobbyReceiver<Data>))
        ensures
            made.0@ == AcceptState::fresh(),
            made.1.connections@ == (Map::<usize, Connection>::empty()),
            made.2@ == Seq::<Event<Data>>::empty(),
    {
        (Lobby { next_id: 0, running: true, _phantom: PhantomData }, LobbySender::new(), LobbyReceiver::new())
    }

    /// Whether the loop is still running.
    pub fn running(&self) -> (running: bool)
        ensures
            running == self@.running,
    {
        self.running
    }

    /// The id that the next connection gets.
    pub fn next_id(&self) -> (id: usize)
        ensures
            id == self@.next_id,
    {
        self.next_id
    }

    /// The first step of a tick: `signalled` says whether the stop signal
    /// was found. Returns whether the loop goes on.
    pub fn poll_stop(&mut self, signalled: bool) -> (running: bool)
        ensures
            final(self)@ == old(self)@.after_poll(signalled),
            running == final(self)@.running,
    {
        if signalled {
            self.running = false;
        }
        self.running
    }

    /// The second step of a tick, for a connection that was accepted from
    /// `addr`: gives it the next id, registers it, publishes that it was
    /// received, and returns the loop that will read from it.
    ///
    /// A loop that has stopped takes no connection, nor does one that has no
    /// id left to give or finds its next id taken: then nothing changes and
    /// nothing is returned.
    pub fn accept(
        &mut self,
        addr: Address,
        connections: &mut Registry,
        events: &mut LobbyReceiver<Data>,
    ) -> (reader: Option<ReaderLoop>)
        ensures
            reader is Some <==> old(self)@.accepts(old(connections)@),
            match reader {
                Some(reader) => {
                    let id = old(self)@.next_id as usize;
                    &&& reader@ == ReaderState::fresh(id, addr)
                    &&& final(self)@ == old(self)@.after_accept()
                    &&& final(connections)@ == old(connections)@.insert(id, Connection { id, addr })
                    &&& final(events)@ == old(events)@.push(
                        Event { from: id, event: EventKind::ConnectionReceived(addr) },
                    )
                },
                None => {
                    &&& final(self)@ == old(self)@
                    &&& final(connections)@ == old(connections)@
                    &&& final(events)@ == old(events)@
                },
            },
            old(self)@.ahead_of(old(connections)@) ==> final(self)@.ahead_of(final(connections)@),
    {
        let id = self.next_id;
        if !self.running || id == usize::MAX || connections.contains(id) {
            return None;
        }
        let (conn, reader) = Connection::spawn(id, addr, events);
        let _ = connections.insert(conn);
        self.next_id = id + 1;
        Some(reader)
    }
}

} // verus!
