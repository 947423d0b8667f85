//! The endpoint name cache: a mapping from endpoint identity to its resolved
//! display name, `"client_name:port_name"`.
//!
//! Entries are recorded when the transport answers a name query and removed
//! when the endpoint departs; nothing else evicts them. A query failure is
//! never recorded: the endpoint is then shown under a synthetic
//! `"client:port"` number label, and the next resolution may query again.

use vstd::prelude::*;
use vstd::string::StringExecFns;
use std::collections::HashMap;
use crate::addr::Addr;
use crate::addr::addr_key;
use crate::addr::addr_key_exec;
use crate::addr::lemma_addr_key_injective;
use crate::fmt::dec_str;
use crate::fmt::i32_to_string;

verus! {

broadcast use vstd::std_specs::hash::group_hash_axioms;

/// A resolved display name: the client's name and the port's name, joined by
/// a colon.
pub open spec fn composed_name(client_name: Seq<char>, port_name: Seq<char>) -> Seq<char> {
    client_name + ":"@ + port_name
}

/// The synthetic label shown when the transport cannot name an endpoint: its
/// bare numbers, joined by a colon.
pub open spec fn fallback_label_view(a: Addr) -> Seq<char> {
    dec_str(a.client as int) + ":"@ + dec_str(a.port as int)
}

/// What a resolution returns under the cache `names`: the cached name, or the
/// synthetic number label for an endpoint not in the cache.
pub open spec fn resolved_name(names: Map<Addr, Seq<char>>, a: Addr) -> Seq<char> {
    if names.contains_key(a) {
        names[a]
    } else {
        fallback_label_view(a)
    }
}

/// Renders the synthetic `"client:port"` number label.
pub fn fallback_label(a: Addr) -> (r: String)
    ensures
        r@ == fallback_label_view(a),
{
    let mut s = i32_to_string(a.client);
    s.append(":");
    let p = i32_to_string(a.port);
    s.append(p.as_str());
    proof {
        assert(s@ =~= fallback_label_view(a));
    }
    s
}

/// The endpoint name cache, a mapping from endpoint identity to display
/// name. Its view is the mathematical map from `Addr` to the cached text.
pub struct NameCache {
    by_key: HashMap<u64, String>,
}

impl View for NameCache {
    type V = Map<Addr, Seq<char>>;

    closed spec fn view(&self) -> Map<Addr, Seq<char>> {
        Map::new(
            |a: Addr| self.by_key@.contains_key(addr_key(a)),
            |a: Addr| self.by_key@[addr_key(a)]@,
        )
    }
}

impl NameCache {
    /// An empty cache.
    pub fn new() -> (r: NameCache)
        ensures
            r@ == Map::<Addr, Seq<char>>::empty(),
    {
        let r = NameCache { by_key: HashMap::new() };
        proof {
            assert(r@ =~= Map::<Addr, Seq<char>>::empty());
        }
        r
    }

    /// The cached name of `a`, if the cache holds one.
    pub fn cached(&self, a: Addr) -> (r: Option<String>)
        ensures
            match r {
                Some(s) => self@.contains_key(a) && s@ == self@[a],
                None => !self@.contains_key(a),
            },
    {
        let k = addr_key_exec(a);
        match self.by_key.get(&k) {
            Some(s) => Some(s.clone()),
            None => None,
        }
    }

    /// Whether resolving `a` would need a transport query: true exactly when
    /// the cache holds no name for it.
    pub fn needs_query(&self, a: Addr) -> (r: bool)
        ensures
            r == !self@.contains_key(a),
    {
        let k = addr_key_exec(a);
        !self.by_key.contains_key(&k)
    }

    /// Records the transport's answer to a name query: the composed
    /// `"client_name:port_name"` display name is cached for `a` and returned.
    pub fn record(&mut self, a: Addr, client_name: &str, port_name: &str) -> (r: String)
        ensures
            final(self)@ == old(self)@.insert(a, composed_name(client_name@, port_name@)),
            r@ == composed_name(client_name@, port_name@),
    {
        let mut s = String::new();
        s.append(client_name);
        s.append(":");
        s.append(port_name);
        proof {
            assert(s@ =~= composed_name(client_name@, port_name@));
        }
        let k = addr_key_exec(a);
        let stored = s.clone();
        self.by_key.insert(k, stored);
        proof {
            assert forall|b: Addr| #[trigger] addr_key(b) == addr_key(a) implies b == a by {
                lemma_addr_key_injective(b, a);
            }
            assert(self@ =~= old(self)@.insert(a, composed_name(client_name@, port_name@)));
        }
        s
    }

    /// Drops the entry for a departed endpoint; an endpoint that was never
    /// cached is no error.
    pub fn forget(&mut self, a: Addr)
        ensures
            final(self)@ == old(self)@.remove(a),
    {
        let k = addr_key_exec(a);
        self.by_key.remove(&k);
        proof {
            assert forall|b: Addr| #[trigger] addr_key(b) == addr_key(a) implies b == a by {
                lemma_addr_key_injective(b, a);
            }
            assert(self@ =~= old(self)@.remove(a));
        }
    }

    /// The display name used for `a`: the cached name, or the synthetic
    /// number label when none is cached.
    pub fn resolve(&self, a: Addr) -> (r: String)
        ensures
            r@ == resolved_name(self@, a),
    {
        match self.cached(a) {
            Some(s) => s,
            None => fallback_label(a),
        }
    }
}

/// Name-cache discipline: once a name is recorded for an identity, resolving
/// that identity finds it cached, so no further transport query is needed;
/// and once the identity is forgotten on departure, the cache holds nothing
/// for it, so the next resolution must query the transport again.
pub proof fn lemma_cache_query_discipline(
    names: Map<Addr, Seq<char>>,
    a: Addr,
    name: Seq<char>,
)
    ensures
        names.insert(a, name).contains_key(a),
        names.insert(a, name)[a] == name,
        !names.insert(a, name).remove(a).contains_key(a),
{
}

} // verus!
