use vstd::prelude::*;
use dashmap::DashMap;

verus! {

#[verifier::external_type_specification]
#[verifier::external_body]
#[verifier::reject_recursive_types(K)]
#[verifier::reject_recursive_types(V)]
#[verifier::reject_recursive_types(S)]
pub struct ExDashMap<K, V, S>(DashMap<K, V, S>);

/// A concurrent map from hostname to backend address.
pub type RouteMap = DashMap<String, String>;

/// The hostname to backend entries that a concurrent map holds.
pub uninterp spec fn routes_of(m: DashMap<String, String>) -> Map<Seq<char>, Seq<char>>;

/// Relies on DashMap::new: a new map holds no entries.
#[verifier::external_body]
fn empty_routes() -> (r: RouteMap)
    ensures
        routes_of(r) =~= Map::empty(),
{
    DashMap::new()
}

/// Relies on DashMap::insert: the key maps to the value afterwards, every
/// other entry stays.
#[verifier::external_body]
fn insert_route(m: &mut DashMap<String, String>, host: String, backend: String)
    ensures
        routes_of(*final(m)) == routes_of(*old(m)).insert(host@, backend@),
{
    m.insert(host, backend);
}

/// Relies on DashMap::get: the value stored under the key, cloned out of the
/// guard that the map hands back.
#[verifier::external_body]
fn lookup_route(m: &DashMap<String, String>, host: &str) -> (r: Option<String>)
    ensures
        match r {
            Some(b) => routes_of(*m).contains_key(host@) && b@ == routes_of(*m)[host@],
            None => !routes_of(*m).contains_key(host@),
        },
{
    m.get(host).map(|entry| entry.value().clone())
}

/// The reserved key whose backend serves hostnames that have no entry.
pub open spec fn default_key() -> Seq<char> {
    seq!['D', 'E', 'F', 'A', 'U', 'L', 'T']
}

/// Where a connection that presented `host` goes: its own entry, else the
/// fallback entry; nowhere when no hostname was presented.
pub open spec fn route_of(table: Map<Seq<char>, Seq<char>>, host: Option<Seq<char>>) -> Option<
    Seq<char>,
> {
    match host {
        None => None,
        Some(h) => if table.contains_key(h) {
            Some(table[h])
        } else if table.contains_key(default_key()) {
            Some(table[default_key()])
        } else {
            None
        },
    }
}

/// The table that a list of entries builds, a later entry replacing an
/// earlier one with the same hostname.
pub open spec fn table_of(entries: Seq<(Seq<char>, Seq<char>)>) -> Map<Seq<char>, Seq<char>>
    decreases entries.len(),
{
    if entries.len() == 0 {
        Map::empty()
    } else {
        let last = entries.last();
        table_of(entries.drop_last()).insert(last.0, last.1)
    }
}

pub open spec fn host_view(host: Option<&str>) -> Option<Seq<char>> {
    match host {
        Some(h) => Some(h@),
        None => None,
    }
}

pub open spec fn backend_view(r: Option<String>) -> Option<Seq<char>> {
    match r {
        Some(b) => Some(b@),
        None => None,
    }
}

/// Maps hostnames to backend addresses (`host:port`). Filled once at startup
/// and only read afterwards, by any number of connections at once.
pub struct RoutingTable {
    routes: DashMap<String, String>,
}

impl View for RoutingTable {
    type V = Map<Seq<char>, Seq<char>>;

    closed spec fn view(&self) -> Map<Seq<char>, Seq<char>> {
        routes_of(self.routes)
    }
}

impl RoutingTable {
    /// A table with no entries.
    pub fn new() -> (r: RoutingTable)
        ensures
            r@ == Map::<Seq<char>, Seq<char>>::empty(),
    {
        RoutingTable { routes: empty_routes() }
    }

    /// Sends `host` to `backend`, replacing an earlier entry for `host`.
    pub fn insert(&mut self, host: String, backend: String)
        ensures
            final(self)@ == old(self)@.insert(host@, backend@),
    {
        insert_route(&mut self.routes, host, backend);
    }

    /// The table that the entries build, in order.
    pub fn from_entries(entries: Vec<(String, String)>) -> (r: RoutingTable)
        ensures
            r@ == table_of(entries@.map_values(|e: (String, String)| (e.0@, e.1@))),
    {
        let ghost all = entries@.map_values(|e: (String, String)| (e.0@, e.1@));
        let mut table = RoutingTable::new();
        let mut i: usize = 0;
        while i < entries.len()
            invariant
                i <= entries.len(),
                all == entries@.map_values(|e: (String, String)| (e.0@, e.1@)),
                table@ == table_of(all.take(i as int)),
            decreases entries.len() - i,
        {
            let host = entries[i].0.clone();
            let backend = entries[i].1.clone();
            table.insert(host, backend);
            proof {
                assert(all.take(i + 1).drop_last() =~= all.take(i as int));
            }
            i = i + 1;
        }
        assert(all.take(i as int) =~= all);
        table
    }

    /// The backend for a connection that presented `host`: the entry for
    /// `host` when there is one, else the `DEFAULT` entry when there is one.
    /// A connection that presented no hostname has no route, whatever the
    /// table holds.
    pub fn resolve(&self, host: Option<&str>) -> (r: Option<String>)
        ensures
            backend_view(r) == route_of(self@, host_view(host)),
            host matches Some(h) ==> (self@.contains_key(h@) ==> backend_view(r) == Some(
                self@[h@],
            )),
            host matches Some(h) ==> (!self@.contains_key(h@) && self@.contains_key(default_key())
                ==> backend_view(r) == Some(self@[default_key()])),
            host matches Some(h) ==> (!self@.contains_key(h@) && !self@.contains_key(default_key())
                ==> r is None),
            host is None ==> r is None,
    {
        match host {
            None => None,
            Some(h) => match lookup_route(&self.routes, h) {
                Some(b) => Some(b),
                None => {
                    proof {
                        reveal_strlit("DEFAULT");
                        assert("DEFAULT"@ =~= default_key());
                    }
                    lookup_route(&self.routes, "DEFAULT")
                },
            },
        }
    }
}

} // verus!
