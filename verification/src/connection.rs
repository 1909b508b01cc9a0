//! One accepted connection and the loop that reads from it.

use vstd::prelude::*;

use crate::address::Address;
use crate::event::{Event, EventKind};
use crate::receiver::LobbyReceiver;
use crate::registry::Registry;

verus! {

/// How many malformed payloads in a row a reader puts up with. One more ends
/// the connection.
pub const ERROR_TOLERANCE: usize = 10;

/// An accepted connection as the registry holds it: the id it was given and
/// the address it came from. The id is the handle by which the owner of the
/// socket finds the outbound half again.
#[derive(Clone, Copy, Debug, PartialEq, Eq, Structural)]
pub struct Connection {
    pub id: usize,
    pub addr: Address,
}

/// Why a payload could not be decoded, as the decoder sorts its errors.
#[derive(Clone, Copy, Debug, PartialEq, Eq, Structural)]
pub enum Category {
    /// Bytes could not be read from the stream.
    Io,
    /// The bytes are not well-formed.
    Syntax,
    /// The bytes are well-formed but do not make a payload.
    Data,
    /// The stream ended before the payload did.
    Eof,
}

/// The category that `serde_json` gives an error.
pub uninterp spec fn category_of(error: serde_json::Error) -> Category;

/// `serde_json::Error::classify`: the category of the error, which depends on
/// the error alone. Each category of `serde_json` is handed on under the same
/// name.
#[verifier::external_body]
fn classify(error: &serde_json::Error) -> (category: Category)
    ensures
        category == category_of(*error),
{
    match error.classify() {
        serde_json::error::Category::Io => Category::Io,
        serde_json::error::Category::Syntax => Category::Syntax,
        serde_json::error::Category::Data => Category::Data,
        serde_json::error::Category::Eof => Category::Eof,
    }
}

/// Whether a decode failure of this category says that the stream is gone:
/// it could not be read, or it ended. Any other failure is a malformed
/// payload on a stream that still works.
pub open spec fn spec_ends_stream(category: Category) -> bool {
    category == Category::Io || category == Category::Eof
}

/// Whether a decode failure of this category says that the stream is gone.
#[verifier::when_used_as_spec(spec_ends_stream)]
pub fn ends_stream(category: Category) -> (gone: bool)
    ensures
        gone == spec_ends_stream(category),
{
    match category {
        Category::Io => true,
        Category::Eof => true,
        Category::Syntax => false,
        Category::Data => false,
    }
}

/// What one attempt to decode a payload came to.
#[derive(Debug)]
pub enum Decoded<Data> {
    /// A payload.
    Value(Data),
    /// The stream is gone.
    Closed,
    /// A malformed payload, with the decoder's complaint.
    Malformed(serde_json::Error),
}

impl<Data> Decoded<Data> {
    /// How a decoder's result is read.
    pub open spec fn spec_from_result(result: Result<Data, serde_json::Error>) -> Decoded<Data> {
        match result {
            Ok(value) => Decoded::Value(value),
            Err(error) => if spec_ends_stream(category_of(error)) {
                Decoded::Closed
            } else {
                Decoded::Malformed(error)
            },
        }
    }

    /// Reads a decoder's result: a value as it is, an error by its category.
    pub fn from_result(result: Result<Data, serde_json::Error>) -> (decoded: Decoded<Data>)
        ensures
            decoded == Self::spec_from_result(result),
    {
        match result {
            Ok(value) => Decoded::Value(value),
            Err(error) => {
                if ends_stream(classify(&error)) {
                    Decoded::Closed
                } else {
                    Decoded::Malformed(error)
                }
            },
        }
    }
}

/// What is known of a reader loop: whose it is, how many malformed payloads
/// it has seen in a row, and whether it goes on.
pub struct ReaderState {
    pub id: usize,
    pub addr: Address,
    pub errors: nat,
    pub running: bool,
}

impl ReaderState {
    /// The loop of a connection that was just accepted: no errors yet, and
    /// running.
    pub open spec fn fresh(id: usize, addr: Address) -> ReaderState {
        ReaderState { id, addr, errors: 0, running: true }
    }

    /// The loop after one decode attempt that came to `outcome`.
    ///
    /// A payload clears the error count. A malformed payload adds one to it,
    /// and ends the loop when the count passes the tolerance. A stream that
    /// is gone ends the loop. A loop that has ended stays as it is.
    pub open spec fn after<Data>(self, outcome: Decoded<Data>) -> ReaderState {
        if !self.running {
            self
        } else {
            match outcome {
                Decoded::Value(_) => ReaderState { errors: 0, ..self },
                Decoded::Closed => ReaderState { running: false, ..self },
                Decoded::Malformed(_) => ReaderState {
                    errors: self.errors + 1,
                    running: self.errors + 1 <= ERROR_TOLERANCE,
                    ..self
                },
            }
        }
    }

    /// What the loop publishes for one decode attempt that came to `outcome`:
    /// the payload, or the complaint about it; nothing for a stream that is
    /// gone, and nothing once the loop has ended.
    pub open spec fn publishes<Data>(self, outcome: Decoded<Data>) -> Option<Event<Data>> {
        if !self.running {
            None
        } else {
            match outcome {
                Decoded::Value(value) => Some(Event { from: self.id, event: EventKind::DataReceived(value) }),
                Decoded::Closed => None,
                Decoded::Malformed(error) => Some(Event { from: self.id, event: EventKind::DataError(error) }),
            }
        }
    }

    /// The queue once the loop has published what it has to for `outcome`.
    pub open spec fn queue_after<Data>(self, outcome: Decoded<Data>, queued: Seq<Event<Data>>) -> Seq<
        Event<Data>,
    > {
        match self.publishes(outcome) {
            Some(event) => queued.push(event),
            None => queued,
        }
    }
}

/// The loop that reads from one connection. While it runs it has seen at
/// most `ERROR_TOLERANCE` malformed payloads in a row.
pub struct ReaderLoop {
    id: usize,
    addr: Address,
    errors: usize,
    running: bool,
}

impl View for ReaderLoop {
    type V = ReaderState;

    closed spec fn view(&self) -> ReaderState {
        ReaderState { id: self.id, addr: self.addr, errors: self.errors as nat, running: self.running }
    }
}

impl ReaderLoop {
    #[verifier::type_invariant]
    spec fn within_tolerance(self) -> bool {
        self.errors <= ERROR_TOLERANCE + 1 && (self.running ==> self.errors <= ERROR_TOLERANCE)
    }

    /// The id of the connection.
    pub fn id(&self) -> (id: usize)
        ensures
            id == self@.id,
    {
        self.id
    }

    /// The address the connection was accepted from.
    pub fn addr(&self) -> (addr: Address)
        ensures
            addr == self@.addr,
    {
        self.addr
    }

    /// Whether the loop goes on.
    pub fn running(&self) -> (running: bool)
        ensures
            running == self@.running,
    {
        self.running
    }

    /// Takes the outcome of one decode attempt: publishes what there is to
    /// publish, moves to the next state, and says whether the loop goes on.
    pub fn advance<Data>(&mut self, outcome: Decoded<Data>, events: &mut LobbyReceiver<Data>) -> (proceed: bool)
        ensures
            final(self)@ == old(self)@.after(outcome),
            proceed == final(self)@.running,
            final(events)@ == old(self)@.queue_after(outcome, old(events)@),
    {
        proof {
            use_type_invariant(&*self);
        }
        if !self.running {
            return false;
        }
        match outcome {
            Decoded::Value(value) => {
                events.publish(Event::data_received(self.id, value));
                self.errors = 0;
            },
            Decoded::Closed => {
                self.running = false;
            },
            Decoded::Malformed(error) => {
                events.publish(Event::data_error(self.id, error));
                let errors = self.errors + 1;
                if errors > ERROR_TOLERANCE {
                    self.running = false;
                }
                self.errors = errors;
            },
        }
        self.running
    }

    /// Takes the result of one decode attempt as the decoder gave it, and
    /// does with it what `advance` does with its reading.
    pub fn step<Data>(&mut self, result: Result<Data, serde_json::Error>, events: &mut LobbyReceiver<Data>) -> (proceed: bool)
        ensures
            final(self)@ == old(self)@.after(Decoded::spec_from_result(result)),
            proceed == final(self)@.running,
            final(events)@ == old(self)@.queue_after(Decoded::spec_from_result(result), old(events)@),
    {
        self.advance(Decoded::from_result(result), events)
    }

    /// Ends the connection: takes its id out of the registry, then publishes
    /// that the connection is lost, with the address it was accepted from.
    pub fn finish<Data>(self, connections: &mut Registry, events: &mut LobbyReceiver<Data>)
        ensures
            final(connections)@ == old(connections)@.remove(self@.id),
            final(events)@ == old(events)@.push(
                Event { from: self@.id, event: EventKind::ConnectionLost(self@.addr) },
            ),
    {
        let _ = connections.remove(self.id);
        events.publish(Event::connection_lost(self.id, self.addr));
    }
}

impl Connection {
    /// Starts a connection that was accepted from `addr` under `id`:
    /// publishes that it was received, and returns the connection for the
    /// registry together with the loop that will read from it.
    pub fn spawn<Data>(id: usize, addr: Address, events: &mut LobbyReceiver<Data>) -> (started: (
        Connection,
        ReaderLoop,
    ))
        ensures
            started.0 == (Connection { id, addr }),
            started.1@ == ReaderState::fresh(id, addr),
            final(events)@ == old(events)@.push(
                Event { from: id, event: EventKind::ConnectionReceived(addr) },
            ),
    {
        events.publish(Event::connection_received(id, addr));
        (Connection { id, addr }, ReaderLoop { id, addr, errors: 0, running: true })
    }
}

} // verus!
