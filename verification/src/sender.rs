//! The sending side of a lobby: addressing payloads to registered
//! connections.

use vstd::prelude::*;

use crate::connection::Connection;
use crate::registry::{is_roster, roster, Registry};

verus! {

/// What was done for each id of a roster, position by position: `None` where
/// the id was passed over, `Some` with what the write returned where a write
/// was attempted.
pub type Attempts<E> = Seq<Option<Result<usize, E>>>;

/// `attempts` is a faithful record of one walk over `ids` in which `pred`
/// chose the recipients and `write` was called once for each of them with
/// `data`.
pub open spec fn answered<P, W, E>(ids: Seq<usize>, pred: P, write: W, data: &[u8], attempts: Attempts<E>) -> bool
    where P: Fn(usize) -> bool, W: Fn(usize, &[u8]) -> Result<usize, E>
{
    &&& attempts.len() == ids.len()
    &&& forall|i: int|
        0 <= i < ids.len() ==> match #[trigger] attempts[i] {
            None => call_ensures(pred, (ids[i],), false),
            Some(outcome) => call_ensures(pred, (ids[i],), true) && call_ensures(
                write,
                (ids[i], data),
                outcome,
            ),
        }
}

/// `attempts` is a faithful record of one walk over `ids` in which a write
/// with `data` was attempted for exactly the ids that `chosen` holds of.
pub open spec fn delivered<W, E>(
    ids: Seq<usize>,
    chosen: spec_fn(usize) -> bool,
    write: W,
    data: &[u8],
    attempts: Attempts<E>,
) -> bool
    where W: Fn(usize, &[u8]) -> Result<usize, E>
{
    &&& attempts.len() == ids.len()
    &&& forall|i: int|
        0 <= i < ids.len() ==> match #[trigger] attempts[i] {
            None => !chosen(ids[i]),
            Some(outcome) => chosen(ids[i]) && call_ensures(write, (ids[i], data), outcome),
        }
}

/// The failed writes of a walk, in the order of the walk, each with the id
/// it was addressed to.
pub open spec fn failures<E>(ids: Seq<usize>, attempts: Attempts<E>) -> Seq<(usize, E)>
    decreases attempts.len(),
{
    if attempts.len() == 0 {
        Seq::empty()
    } else {
        let earlier = failures(ids.drop_last(), attempts.drop_last());
        match attempts.last() {
            Some(Err(e)) => earlier.push((ids.last(), e)),
            _ => earlier,
        }
    }
}

/// `r` reports the walk: success where no write failed, else every failure.
pub open spec fn reports<E>(r: Result<(), Vec<(usize, E)>>, ids: Seq<usize>, attempts: Attempts<E>) -> bool {
    match r {
        Ok(()) => failures(ids, attempts).len() == 0,
        Err(failed) => failed@ == failures(ids, attempts) && failed@.len() > 0,
    }
}

/// A walk in which no write was attempted has no failure to report.
pub proof fn lemma_nothing_attempted<E>(ids: Seq<usize>, attempts: Attempts<E>)
    requires
        forall|i: int| 0 <= i < attempts.len() ==> attempts[i] is None,
    ensures
        failures(ids, attempts).len() == 0,
    decreases attempts.len(),
{
    if attempts.len() > 0 {
        lemma_nothing_attempted(ids.drop_last(), attempts.drop_last());
    }
}

/// A connection that has been taken out of the registry is out of reach: a
/// send addressed to it alone attempts no write and reports success.
pub proof fn lemma_lost_connection_is_out_of_reach<W, E>(
    live: Map<usize, Connection>,
    lost: usize,
    ids: Seq<usize>,
    write: W,
    data: &[u8],
    attempts: Attempts<E>,
    r: Result<(), Vec<(usize, E)>>,
)
    where W: Fn(usize, &[u8]) -> Result<usize, E>
    requires
        is_roster(ids, live.remove(lost)),
        delivered(ids, |id: usize| id == lost, write, data, attempts),
        reports(r, ids, attempts),
    ensures
        forall|i: int| 0 <= i < attempts.len() ==> attempts[i] is None,
        r is Ok,
{
    assert forall|i: int| 0 <= i < attempts.len() implies attempts[i] is None by {
        assert(ids.contains(ids[i]));
    }
    lemma_nothing_attempted(ids, attempts);
}

/// The sending side of a lobby. It owns the registry of live connections.
///
/// The bytes go out through a `write` that the caller hands to each send:
/// called with an id and the payload, it writes the payload to the outbound
/// half of that connection and returns what the write returned.
pub struct LobbySender {
    pub connections: Registry,
}

impl LobbySender {
    /// A sender over an empty registry.
    pub fn new() -> (sender: LobbySender)
        ensures
            sender.connections@ == (Map::<usize, Connection>::empty()),
    {
        LobbySender { connections: Registry::new() }
    }

    /// Writes `data` to every registered connection whose id `pred` accepts,
    /// in ascending order of id, and reports the writes that failed, each
    /// with its id, in the same order. A failed write does not keep the later
    /// connections from being written to, and no connection leaves the
    /// registry on account of one.
    pub fn send_to_pred<P, W, E>(&self, pred: P, data: &[u8], write: W) -> (r: Result<(), Vec<(usize, E)>>)
        where P: Fn(usize) -> bool, W: Fn(usize, &[u8]) -> Result<usize, E>
        requires
            forall|id: usize| self.connections@.contains_key(id) ==> call_requires(pred, (id,)),
            forall|id: usize| self.connections@.contains_key(id) ==> call_requires(write, (id, data)),
        ensures
            is_roster(roster(self.connections@), self.connections@),
            exists|attempts: Attempts<E>|
                answered(roster(self.connections@), pred, write, data, attempts) && reports(
                    r,
                    roster(self.connections@),
                    attempts,
                ),
    {
        let ids = self.connections.ids();
        let mut failed: Vec<(usize, E)> = Vec::new();
        let ghost mut attempts: Attempts<E> = Seq::empty();
        let mut i: usize = 0;
        while i < ids.len()
            invariant
                i <= ids.len(),
                ids@ == roster(self.connections@),
                forall|id: usize| self.connections@.contains_key(id) ==> call_requires(pred, (id,)),
                forall|id: usize| self.connections@.contains_key(id) ==> call_requires(write, (id, data)),
                forall|id: usize| ids@.contains(id) <==> self.connections@.contains_key(id),
                answered(ids@.take(i as int), pred, write, data, attempts),
                failed@ == failures(ids@.take(i as int), attempts),
            decreases ids.len() - i,
        {
            let id = ids[i];
            assert(ids@.contains(id));
            let ghost attempt: Option<Result<usize, E>>;
            if pred(id) {
                let outcome = write(id, data);
                proof {
                    attempt = Some(outcome);
                }
                match outcome {
                    Ok(_) => {},
                    Err(e) => {
                        failed.push((id, e));
                    },
                }
            } else {
                proof {
                    attempt = None;
                }
            }
            proof {
                let before = ids@.take(i as int);
                let after = ids@.take(i as int + 1);
                assert(after.drop_last() =~= before);
                assert(attempts.push(attempt).drop_last() =~= attempts);
                attempts = attempts.push(attempt);
            }
            i += 1;
        }
        let r = if failed.len() == 0 {
            Ok(())
        } else {
            Err(failed)
        };
        proof {
            assert(ids@.take(i as int) =~= ids@);
            assert(answered(roster(self.connections@), pred, write, data, attempts));
            assert(reports(r, roster(self.connections@), attempts));
        }
        r
    }

    /// Writes `data` to every registered connection but the one with id
    /// `except`, and reports the writes that failed.
    pub fn send_to_except<W, E>(&self, except: usize, data: &[u8], write: W) -> (r: Result<(), Vec<(usize, E)>>)
        where W: Fn(usize, &[u8]) -> Result<usize, E>
        requires
            forall|id: usize| self.connections@.contains_key(id) ==> call_requires(write, (id, data)),
        ensures
            is_roster(roster(self.connections@), self.connections@),
            exists|attempts: Attempts<E>|
                delivered(roster(self.connections@), |id: usize| id != except, write, data, attempts)
                    && reports(r, roster(self.connections@), attempts),
    {
        let others = move |id: usize| -> (b: bool)
            ensures
                b == (id != except),
            { id != except };
        let r = self.send_to_pred(others, data, write);
        proof {
            let ids = roster(self.connections@);
            let attempts = choose|attempts: Attempts<E>|
                answered(ids, others, write, data, attempts) && reports(r, ids, attempts);
            assert(delivered(ids, |id: usize| id != except, write, data, attempts));
        }
        r
    }

    /// Writes `data` to the connection with id `to`, if it is registered, and
    /// to no other; reports the write if it failed.
    pub fn send_to<W, E>(&self, to: usize, data: &[u8], write: W) -> (r: Result<(), Vec<(usize, E)>>)
        where W: Fn(usize, &[u8]) -> Result<usize, E>
        requires
            forall|id: usize| self.connections@.contains_key(id) ==> call_requires(write, (id, data)),
        ensures
            is_roster(roster(self.connections@), self.connections@),
            exists|attempts: Attempts<E>|
                delivered(roster(self.connections@), |id: usize| id == to, write, data, attempts)
                    && reports(r, roster(self.connections@), attempts),
    {
        let only = move |id: usize| -> (b: bool)
            ensures
                b == (id == to),
            { id == to };
        let r = self.send_to_pred(only, data, write);
        proof {
            let ids = roster(self.connections@);
            let attempts = choose|attempts: Attempts<E>|
                answered(ids, only, write, data, attempts) && reports(r, ids, attempts);
            assert(delivered(ids, |id: usize| id == to, write, data, attempts));
        }
        r
    }

    /// Writes `data` to every registered connection and reports the writes
    /// that failed.
    pub fn send<W, E>(&self, data: &[u8], write: W) -> (r: Result<(), Vec<(usize, E)>>)
        where W: Fn(usize, &[u8]) -> Result<usize, E>
        requires
            forall|id: usize| self.connections@.contains_key(id) ==> call_requires(write, (id, data)),
        ensures
            is_roster(roster(self.connections@), self.connections@),
            exists|attempts: Attempts<E>|
                delivered(roster(self.connections@), |id: usize| true, write, data, attempts)
                    && reports(r, roster(self.connections@), attempts),
    {
        let all = |id: usize| -> (b: bool)
            ensures
                b,
            { true };
        let r = self.send_to_pred(all, data, write);
        proof {
            let ids = roster(self.connections@);
            let attempts = choose|attempts: Attempts<E>|
                answered(ids, all, write, data, attempts) && reports(r, ids, attempts);
            assert(delivered(ids, |id: usize| true, write, data, attempts));
        }
        r
    }
}

} // verus!
