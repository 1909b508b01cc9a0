//! The shutdown coordinator: the accept loop is told to stop when the last
//! of the two handles of a lobby is released.

use vstd::prelude::*;

verus! {

/// One of the two handles of a lobby.
#[derive(Clone, Copy, Debug, PartialEq, Eq, Structural)]
pub enum Handle {
    Sender,
    Receiver,
}

impl Handle {
    /// The other handle of the same lobby.
    pub open spec fn other(self) -> Handle {
        match self {
            Handle::Sender => Handle::Receiver,
            Handle::Receiver => Handle::Sender,
        }
    }
}

/// Which handles of a lobby are still held.
pub struct Held {
    pub sender: bool,
    pub receiver: bool,
}

impl Held {
    /// Both handles are held: the state of a lobby that was just made.
    pub open spec fn fresh() -> Held {
        Held { sender: true, receiver: true }
    }

    /// Whether `handle` has not been released yet.
    pub open spec fn holds(self, handle: Handle) -> bool {
        match handle {
            Handle::Sender => self.sender,
            Handle::Receiver => self.receiver,
        }
    }

    /// Whether both handles have been released: the accept loop has been told
    /// to stop.
    pub open spec fn stopped(self) -> bool {
        !self.sender && !self.receiver
    }

    /// Whether releasing `handle` now sends the stop signal: it is held, and
    /// it is the last that is.
    pub open spec fn fires(self, handle: Handle) -> bool {
        self.holds(handle) && !self.holds(handle.other())
    }

    /// The state once `handle` is released. A released handle stays released.
    pub open spec fn release(self, handle: Handle) -> Held {
        match handle {
            Handle::Sender => Held { sender: false, ..self },
            Handle::Receiver => Held { receiver: false, ..self },
        }
    }
}

/// The shutdown coordinator of a lobby. It keeps track of which of the two
/// handles are still held.
pub struct LobbyCloser {
    sender_held: bool,
    receiver_held: bool,
}

impl View for LobbyCloser {
    type V = Held;

    closed spec fn view(&self) -> Held {
        Held { sender: self.sender_held, receiver: self.receiver_held }
    }
}

impl LobbyCloser {
    /// A coordinator with both handles held.
    pub fn new() -> (closer: LobbyCloser)
        ensures
            closer@ == Held::fresh(),
    {
        LobbyCloser { sender_held: true, receiver_held: true }
    }

    /// Releases `handle` and says whether the stop signal is to be sent now.
    /// It is sent by the release that leaves no handle held, and by no other:
    /// releasing a handle a second time changes nothing.
    pub fn release(&mut self, handle: Handle) -> (stop: bool)
        ensures
            final(self)@ == old(self)@.release(handle),
            stop == old(self)@.fires(handle),
    {
        let stop = match handle {
            Handle::Sender => self.sender_held && !self.receiver_held,
            Handle::Receiver => self.receiver_held && !self.sender_held,
        };
        match handle {
            Handle::Sender => {
                self.sender_held = false;
            },
            Handle::Receiver => {
                self.receiver_held = false;
            },
        }
        stop
    }

    /// Whether both handles have been released.
    pub fn stopped(&self) -> (stopped: bool)
        ensures
            stopped == self@.stopped(),
    {
        !self.sender_held && !self.receiver_held
    }

    /// Releasing one handle of a lobby, whichever it is, does not stop the
    /// accept loop while the other is held; releasing the other one then
    /// does. The stop signal is sent by that second release, and by no
    /// release before or after it.
    pub proof fn lemma_stops_with_the_last_handle(first: Handle)
        ensures
            !Held::fresh().fires(first),
            !Held::fresh().release(first).stopped(),
            !Held::fresh().release(first).fires(first),
            Held::fresh().release(first).fires(first.other()),
            Held::fresh().release(first).release(first.other()).stopped(),
            forall|again: Handle| !Held::fresh().release(first).release(first.other()).fires(again),
    {
    }
}

} // verus!
