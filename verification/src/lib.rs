//! The decision core of a TCP lobby: which id a new connection gets, what a
//! reader does with each decoded payload, whom a broadcast reaches, what the
//! consumer sees when it drains the event queue, and when the accept loop is
//! told to stop. Sockets, threads and locks live with the caller; every
//! function here works on plain values and is verified against its contract.

pub mod address;
pub mod closer;
pub mod connection;
pub mod event;
pub mod lobby;
pub mod receiver;
pub mod registry;
pub mod sender;

pub use crate::address::Address;
pub use crate::closer::{Handle, Held, LobbyCloser};
pub use crate::connection::{Category, Connection, Decoded, ReaderLoop, ReaderState, ERROR_TOLERANCE};
pub use crate::event::{Event, EventKind, Message, MessageKind};
pub use crate::lobby::{AcceptState, Course, Happening, Lobby};
pub use crate::receiver::LobbyReceiver;
pub use crate::registry::Registry;
pub use crate::sender::LobbySender;
