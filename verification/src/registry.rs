//! The connection registry: which ids are live, and in what order a
//! broadcast walks them.

use vstd::prelude::*;
use vec_map::VecMap;

use crate::address::Address;
use crate::connection::Connection;

verus! {

/// `vec_map::VecMap`: a map from small integers to values, kept in a vector
/// indexed by key.
#[verifier::external_type_specification]
#[verifier::external_body]
#[verifier::reject_recursive_types(V)]
pub struct ExVecMap<V>(VecMap<V>);

/// The key-value pairs that a `VecMap` of addresses holds: the keys whose
/// slot is filled, each with the value in its slot.
pub uninterp spec fn entries(map: VecMap<Address>) -> Map<usize, Address>;

/// `VecMap::new`: the map it returns holds nothing.
#[verifier::external_body]
fn vec_map_new() -> (fresh: VecMap<Address>)
    ensures
        entries(fresh) == (Map::<usize, Address>::empty()),
{
    VecMap::new()
}

/// `VecMap::contains_key`: whether a value is stored under `key`.
#[verifier::external_body]
fn vec_map_contains_key(map: &VecMap<Address>, key: usize) -> (found: bool)
    ensures
        found == entries(*map).contains_key(key),
{
    map.contains_key(key)
}

/// `VecMap::insert`: stores `value` under `key`, in place of whatever was
/// there, and returns what was there; every other key keeps its value.
///
/// The map grows its vector to `key + 1` slots and counts them in a `usize`,
/// so the largest `usize` is no key. That the vector can be grown is taken
/// for granted here, as it is for every `Vec`.
#[verifier::external_body]
fn vec_map_insert(map: &mut VecMap<Address>, key: usize, value: Address) -> (was: Option<Address>)
    requires
        key < usize::MAX,
    ensures
        entries(*final(map)) == entries(*old(map)).insert(key, value),
        was == if entries(*old(map)).contains_key(key) {
            Some(entries(*old(map))[key])
        } else {
            None
        },
{
    map.insert(key, value)
}

/// `VecMap::remove`: empties the slot of `key` and returns what was in it;
/// every other key keeps its value.
#[verifier::external_body]
fn vec_map_remove(map: &mut VecMap<Address>, key: usize) -> (was: Option<Address>)
    ensures
        entries(*final(map)) == entries(*old(map)).remove(key),
        was == if entries(*old(map)).contains_key(key) {
            Some(entries(*old(map))[key])
        } else {
            None
        },
{
    map.remove(key)
}

/// `VecMap::keys`: the iterator visits every key once, in ascending order.
#[verifier::external_body]
fn vec_map_keys(map: &VecMap<Address>) -> (keys: Vec<usize>)
    ensures
        ascending(keys@),
        forall|key: usize| keys@.contains(key) <==> entries(*map).contains_key(key),
{
    map.keys().collect()
}

/// Each element is smaller than every later one.
pub open spec fn ascending(ids: Seq<usize>) -> bool {
    forall|i: int, j: int| 0 <= i < j < ids.len() ==> ids[i] < ids[j]
}

/// `ids` lists the keys of `live`, each once, smallest first.
pub open spec fn is_roster(ids: Seq<usize>, live: Map<usize, Connection>) -> bool {
    &&& ascending(ids)
    &&& forall|id: usize| ids.contains(id) <==> live.contains_key(id)
}

/// The ids of `live`, smallest first: the order in which a registry is walked.
pub open spec fn roster(live: Map<usize, Connection>) -> Seq<usize> {
    choose|ids: Seq<usize>| is_roster(ids, live)
}

/// Two ascending sequences with the same elements are the same sequence.
pub proof fn lemma_ascending_unique(a: Seq<usize>, b: Seq<usize>)
    requires
        ascending(a),
        ascending(b),
        forall|id: usize| a.contains(id) <==> b.contains(id),
    ensures
        a == b,
    decreases a.len(),
{
    if a.len() == 0 {
        if b.len() > 0 {
            assert(b.contains(b[0]));
            assert(a.contains(b[0]));
        }
        assert(a =~= b);
    } else {
        let top = a.last();
        assert(a.contains(top));
        assert(b.contains(top));
        let k = choose|k: int| 0 <= k < b.len() && b[k] == top;
        if k != b.len() - 1 {
            let above = b.last();
            assert(b.contains(above));
            assert(a.contains(above));
            let h = choose|h: int| 0 <= h < a.len() && a[h] == above;
            assert(a[h] <= top);
        }
        let a0 = a.drop_last();
        let b0 = b.drop_last();
        assert forall|id: usize| a0.contains(id) <==> b0.contains(id) by {
            if a0.contains(id) {
                let h = choose|h: int| 0 <= h < a0.len() && a0[h] == id;
                assert(a[h] == id);
                assert(a.contains(id));
                let g = choose|g: int| 0 <= g < b.len() && b[g] == id;
                assert(id < top);
                assert(b0[g] == id);
            }
            if b0.contains(id) {
                let g = choose|g: int| 0 <= g < b0.len() && b0[g] == id;
                assert(b[g] == id);
                assert(b.contains(id));
                let h = choose|h: int| 0 <= h < a.len() && a[h] == id;
                assert(id < top);
                assert(a0[h] == id);
            }
        }
        lemma_ascending_unique(a0, b0);
        assert(a =~= a0.push(top));
        assert(b =~= b0.push(top));
    }
}

/// The live connections of one lobby, by id: at most one under each id.
///
/// The registry keeps the address of each connection under the connection's
/// id, so a connection is always found under its own id.
pub struct Registry {
    addresses: VecMap<Address>,
}

impl View for Registry {
    type V = Map<usize, Connection>;

    closed spec fn view(&self) -> Map<usize, Connection> {
        Map::new(
            |id: usize| entries(self.addresses).contains_key(id),
            |id: usize| Connection { id, addr: entries(self.addresses)[id] },
        )
    }
}

impl Registry {
    /// Every connection is registered under its own id.
    pub proof fn lemma_keyed_by_id(self)
        ensures
            forall|id: usize| #[trigger] self@.contains_key(id) ==> self@[id].id == id,
    {
    }

    /// The registered ids, smallest first.
    pub open spec fn spec_ids(&self) -> Seq<usize> {
        roster(self@)
    }

    /// An empty registry.
    pub fn new() -> (registry: Registry)
        ensures
            registry@ == (Map::<usize, Connection>::empty()),
    {
        let registry = Registry { addresses: vec_map_new() };
        assert(registry@ =~= Map::<usize, Connection>::empty());
        registry
    }

    /// Whether a connection is registered under `id`.
    pub fn contains(&self, id: usize) -> (found: bool)
        ensures
            found == self@.contains_key(id),
    {
        vec_map_contains_key(&self.addresses, id)
    }

    /// Registers `conn` under its id. Fails, and hands `conn` back, exactly
    /// when that id is already registered; the registry is then unchanged.
    pub fn insert(&mut self, conn: Connection) -> (r: Result<(), Connection>)
        requires
            conn.id < usize::MAX,
        ensures
            match r {
                Ok(()) => !old(self)@.contains_key(conn.id) && final(self)@ == old(self)@.insert(
                    conn.id,
                    conn,
                ),
                Err(back) => old(self)@.contains_key(conn.id) && back == conn && final(self)@ == old(
                    self,
                )@,
            },
    {
        if vec_map_contains_key(&self.addresses, conn.id) {
            Err(conn)
        } else {
            let _ = vec_map_insert(&mut self.addresses, conn.id, conn.addr);
            assert(self@ =~= old(self)@.insert(conn.id, conn));
            Ok(())
        }
    }

    /// Removes the connection registered under `id` and returns it. With no
    /// such connection nothing changes.
    pub fn remove(&mut self, id: usize) -> (was: Option<Connection>)
        ensures
            final(self)@ == old(self)@.remove(id),
            was == if old(self)@.contains_key(id) {
                Some(old(self)@[id])
            } else {
                None
            },
    {
        let was = vec_map_remove(&mut self.addresses, id);
        assert(self@ =~= old(self)@.remove(id));
        match was {
            Some(addr) => Some(Connection { id, addr }),
            None => None,
        }
    }

    /// The registered ids, smallest first.
    pub fn ids(&self) -> (ids: Vec<usize>)
        ensures
            ids@ == self.spec_ids(),
            is_roster(ids@, self@),
    {
        let ids = vec_map_keys(&self.addresses);
        proof {
            assert(is_roster(ids@, self@));
            lemma_ascending_unique(ids@, roster(self@));
        }
        ids
    }
}

} // verus!
