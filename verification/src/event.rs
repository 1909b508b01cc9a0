//! What a lobby reports to its consumer.

use vstd::prelude::*;

use crate::address::Address;

verus! {

/// `serde_json::Error`: the reason a payload could not be decoded. The library
/// carries such a value from the decoder to the consumer and never looks
/// inside it.
#[verifier::external_type_specification]
#[verifier::external_body]
pub struct ExJsonError(serde_json::Error);

/// One report from a lobby: the connection it is about and what happened.
#[derive(Debug)]
pub struct Event<Data> {
    pub from: usize,
    pub event: EventKind<Data>,
}

/// What happened on a connection.
#[derive(Debug)]
pub enum EventKind<Data> {
    /// The connection was accepted from this address.
    ConnectionReceived(Address),
    /// The connection ended; the address is the one it was accepted from.
    ConnectionLost(Address),
    /// One payload was decoded.
    DataReceived(Data),
    /// One payload was malformed.
    DataError(serde_json::Error),
}

/// An event, for callers that speak of the messages of a lobby.
pub type Message<Data> = Event<Data>;

/// The kind of a message.
pub type MessageKind<Data> = EventKind<Data>;

impl<Data> Event<Data> {
    pub fn connection_received(from: usize, addr: Address) -> (e: Event<Data>)
        ensures
            e == (Event { from, event: EventKind::<Data>::ConnectionReceived(addr) }),
    {
        Event { from, event: EventKind::ConnectionReceived(addr) }
    }

    pub fn connection_lost(from: usize, addr: Address) -> (e: Event<Data>)
        ensures
            e == (Event { from, event: EventKind::<Data>::ConnectionLost(addr) }),
    {
        Event { from, event: EventKind::ConnectionLost(addr) }
    }

    pub fn data_received(from: usize, data: Data) -> (e: Event<Data>)
        ensures
            e == (Event { from, event: EventKind::DataReceived(data) }),
    {
        Event { from, event: EventKind::DataReceived(data) }
    }

    pub fn data_error(from: usize, error: serde_json::Error) -> (e: Event<Data>)
        ensures
            e == (Event { from, event: EventKind::<Data>::DataError(error) }),
    {
        Event { from, event: EventKind::DataError(error) }
    }
}

} // verus!
