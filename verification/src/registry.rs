//! The session registry: a concurrent map from session key to backend name.
//! The table is a sharded concurrent hash map, so probing one backend never
//! blocks lookups for unrelated keys. The calls into the collection are
//! trusted; everything above them is verified.

use vstd::prelude::*;
use dashmap::DashMap;

verus! {

#[verifier::external_type_specification]
#[verifier::external_body]
#[verifier::reject_recursive_types(K)]
#[verifier::reject_recursive_types(V)]
#[verifier::reject_recursive_types(S)]
pub struct ExDashMap<K, V, S>(DashMap<K, V, S>);

/// What a registry table holds, as a map from session key to backend name.
pub uninterp spec fn table_contents(m: DashMap<String, String>) -> Map<Seq<char>, Seq<char>>;

/// Relies on dashmap::DashMap::new: creates an empty map.
#[verifier::external_body]
fn table_new() -> (r: DashMap<String, String>)
    ensures
        forall|k: Seq<char>| !table_contents(r).contains_key(k),
{
    DashMap::new()
}

/// Relies on dashmap::DashMap::get: returns the value stored under the key,
/// if any.
#[verifier::external_body]
fn table_get(m: &DashMap<String, String>, key: &String) -> (r: Option<String>)
    ensures
        r is Some <==> table_contents(*m).contains_key(key@),
        r matches Some(v) ==> v@ == table_contents(*m)[key@],
{
    m.get(key).map(|v| v.value().clone())
}

/// Relies on dashmap::DashMap::entry: one check-and-insert under the key's
/// shard lock, atomic with respect to concurrent callers for the same key.
/// Returns the stored value and whether this call inserted it.
#[verifier::external_body]
fn table_entry_or_insert(m: &mut DashMap<String, String>, key: &String, fresh: String) -> (r: (
    String,
    bool,
))
    ensures
        table_contents(*old(m)).contains_key(key@) ==> r.1 == false && r.0@ == table_contents(
            *old(m),
        )[key@] && table_contents(*final(m)) == table_contents(*old(m)),
        !table_contents(*old(m)).contains_key(key@) ==> r.1 == true && r.0@ == fresh@
            && table_contents(*final(m)) == table_contents(*old(m)).insert(key@, fresh@),
{
    match m.entry(key.clone()) {
        dashmap::mapref::entry::Entry::Occupied(e) => (e.get().clone(), false),
        dashmap::mapref::entry::Entry::Vacant(e) => {
            let value = fresh.clone();
            e.insert(fresh);
            (value, true)
        },
    }
}

/// Relies on dashmap::DashMap::remove: deletes the entry, returning the
/// stored value if there was one.
#[verifier::external_body]
fn table_remove(m: &mut DashMap<String, String>, key: &String) -> (r: Option<String>)
    ensures
        table_contents(*final(m)) == table_contents(*old(m)).remove(key@),
        r is Some <==> table_contents(*old(m)).contains_key(key@),
        r matches Some(v) ==> v@ == table_contents(*old(m))[key@],
{
    m.remove(key).map(|(_, v)| v)
}

/// Relies on dashmap::DashMap::iter: yields every entry exactly once; no
/// order is promised.
#[verifier::external_body]
fn table_entries(m: &DashMap<String, String>) -> (r: Vec<(String, String)>)
    ensures
        forall|i: int|
            #![trigger r@[i]]
            0 <= i < r@.len() ==> table_contents(*m).contains_key(r@[i].0@) && table_contents(
                *m,
            )[r@[i].0@] == r@[i].1@,
        forall|k: Seq<char>|
            table_contents(*m).contains_key(k) ==> exists|i: int|
                0 <= i < r@.len() && #[trigger] r@[i].0@ == k,
        forall|i: int, j: int|
            #![trigger r@[i], r@[j]]
            0 <= i < j < r@.len() ==> r@[i].0@ != r@[j].0@,
{
    m.iter().map(|e| (e.key().clone(), e.value().clone())).collect()
}

/// Maps one session key to one backend name; at most one entry per key.
pub struct SessionRegistry {
    table: DashMap<String, String>,
}

impl View for SessionRegistry {
    type V = Map<Seq<char>, Seq<char>>;

    closed spec fn view(&self) -> Map<Seq<char>, Seq<char>> {
        table_contents(self.table)
    }
}

/// Whether a reservation for `key` provisions a new backend.
pub open spec fn reserve_is_new(m: Map<Seq<char>, Seq<char>>, key: Seq<char>) -> bool {
    !m.contains_key(key)
}

/// The backend name every caller reserving `key` observes.
pub open spec fn reserve_name(
    m: Map<Seq<char>, Seq<char>>,
    key: Seq<char>,
    fresh: Seq<char>,
) -> Seq<char> {
    if m.contains_key(key) {
        m[key]
    } else {
        fresh
    }
}

/// The table after a reservation for `key`.
pub open spec fn reserve_table(
    m: Map<Seq<char>, Seq<char>>,
    key: Seq<char>,
    fresh: Seq<char>,
) -> Map<Seq<char>, Seq<char>> {
    if m.contains_key(key) {
        m
    } else {
        m.insert(key, fresh)
    }
}

/// What a reservation reports: the entry already existed, or this caller
/// inserted it and owns the provisioning of the backend.
pub enum Reservation {
    Hit(String),
    ReservedNew(String),
}

impl SessionRegistry {
    /// An empty registry.
    pub fn new() -> (r: SessionRegistry)
        ensures
            r@ == Map::<Seq<char>, Seq<char>>::empty(),
    {
        SessionRegistry { table: table_new() }
    }

    /// The backend name recorded for a key, if any.
    pub fn lookup(&self, key: &String) -> (r: Option<String>)
        ensures
            r is Some <==> self@.contains_key(key@),
            r matches Some(v) ==> v@ == self@[key@],
    {
        table_get(&self.table, key)
    }

    /// Deletes an entry unconditionally, returning what it held.
    pub fn remove(&mut self, key: &String) -> (r: Option<String>)
        ensures
            final(self)@ == old(self)@.remove(key@),
            r is Some <==> old(self)@.contains_key(key@),
            r matches Some(v) ==> v@ == old(self)@[key@],
    {
        table_remove(&mut self.table, key)
    }

    /// A snapshot of every entry, for the reaper's full scan; taken without
    /// holding a global lock across the whole registry.
    pub fn entries(&self) -> (r: Vec<(String, String)>)
        ensures
            forall|i: int|
                #![trigger r@[i]]
                0 <= i < r@.len() ==> self@.contains_key(r@[i].0@) && self@[r@[i].0@] == r@[i].1@,
            forall|k: Seq<char>|
                self@.contains_key(k) ==> exists|i: int|
                    0 <= i < r@.len() && #[trigger] r@[i].0@ == k,
            forall|i: int, j: int|
                #![trigger r@[i], r@[j]]
                0 <= i < j < r@.len() ==> r@[i].0@ != r@[j].0@,
    {
        table_entries(&self.table)
    }

    /// Atomic per key: if an entry exists it is returned, otherwise the
    /// freshly allocated name is inserted and returned as newly reserved. No
    /// two callers both observe `ReservedNew` for the same key.
    pub fn lookup_or_reserve(&mut self, key: &String, fresh: String) -> (r: Reservation)
        ensures
            final(self)@ == reserve_table(old(self)@, key@, fresh@),
            final(self)@.contains_key(key@),
            final(self)@[key@] == reserve_name(old(self)@, key@, fresh@),
            r matches Reservation::Hit(n) ==> !reserve_is_new(old(self)@, key@) && n@
                == reserve_name(old(self)@, key@, fresh@),
            r matches Reservation::ReservedNew(n) ==> reserve_is_new(old(self)@, key@) && n@
                == reserve_name(old(self)@, key@, fresh@),
    {
        let (name, inserted) = table_entry_or_insert(&mut self.table, key, fresh);
        if inserted {
            Reservation::ReservedNew(name)
        } else {
            Reservation::Hit(name)
        }
    }
}

/// At most one backend per key: the reservation that created the entry fixes
/// the name; every later reservation for the key is a hit on that very name
/// and leaves the table unchanged, whatever fresh name the later caller
/// brings.
pub proof fn lemma_at_most_one_per_key(
    m: Map<Seq<char>, Seq<char>>,
    key: Seq<char>,
    fresh1: Seq<char>,
    fresh2: Seq<char>,
)
    requires
        reserve_is_new(m, key),
    ensures
        ({
            let m1 = reserve_table(m, key, fresh1);
            &&& reserve_name(m, key, fresh1) == fresh1
            &&& !reserve_is_new(m1, key)
            &&& reserve_name(m1, key, fresh2) == fresh1
            &&& reserve_table(m1, key, fresh2) == m1
        }),
{
}

} // verus!
