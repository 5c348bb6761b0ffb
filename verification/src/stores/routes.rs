//! Route entries and the table from host names to them.

use std::sync::Arc;

use dashmap::DashMap;
use vstd::prelude::*;

use crate::stores::path_matcher::PathMatcher;
use crate::stores::table::{
    route_entries, route_table_clone, route_table_get, route_table_hosts, route_table_insert,
    route_table_new,
};
use crate::text::texts;

verus! {

/// The backends of one host: their addresses, served in turn, and the period
/// of the TCP health check that watches them.
#[derive(Clone, Debug, PartialEq, Eq)]
pub struct UpstreamPool {
    backends: Vec<String>,
    health_check_secs: u64,
}

/// What an upstream pool holds, as mathematical values.
pub struct UpstreamPoolView {
    pub backends: Seq<Seq<char>>,
    pub health_check_secs: u64,
}

impl View for UpstreamPool {
    type V = UpstreamPoolView;

    closed spec fn view(&self) -> UpstreamPoolView {
        UpstreamPoolView {
            backends: texts(self.backends@),
            health_check_secs: self.health_check_secs,
        }
    }
}

impl UpstreamPool {
    /// A pool over `backends`, checked every `health_check_secs` seconds.
    pub fn new(backends: Vec<String>, health_check_secs: u64) -> (pool: UpstreamPool)
        ensures
            pool@ == (UpstreamPoolView { backends: texts(backends@), health_check_secs }),
    {
        UpstreamPool { backends, health_check_secs }
    }

    /// The addresses of the backends, in the order they were given.
    pub fn backends(&self) -> (backends: &Vec<String>)
        ensures
            texts(backends@) == self@.backends,
    {
        &self.backends
    }

    /// The number of seconds between two health checks.
    pub fn health_check_secs(&self) -> (secs: u64)
        ensures
            secs == self@.health_check_secs,
    {
        self.health_check_secs
    }
}

/// What the table keeps for a host: the pool of its backends and the path
/// matcher that guards it. An entry is never changed once it is stored; a
/// later entry for the same host takes its place as a whole.
#[derive(Clone, Debug, PartialEq, Eq)]
pub struct RouteEntry {
    upstreams: UpstreamPool,
    path_matcher: PathMatcher,
}

/// What a route entry holds, as mathematical values.
pub struct RouteEntryView {
    pub upstreams: UpstreamPoolView,
    pub patterns: Seq<Seq<char>>,
}

impl View for RouteEntry {
    type V = RouteEntryView;

    closed spec fn view(&self) -> RouteEntryView {
        RouteEntryView { upstreams: self.upstreams@, patterns: self.path_matcher@ }
    }
}

impl RouteEntry {
    /// An entry for `upstreams` whose matcher lets every path through.
    pub fn new(upstreams: UpstreamPool) -> (entry: RouteEntry)
        ensures
            entry@ == (RouteEntryView {
                upstreams: upstreams@,
                patterns: Seq::<Seq<char>>::empty(),
            }),
    {
        RouteEntry { upstreams, path_matcher: PathMatcher::new() }
    }

    /// An entry for `upstreams` that lets through the paths that fit one of
    /// `patterns`, or every path where `patterns` is empty.
    pub fn with_patterns(upstreams: UpstreamPool, patterns: Vec<String>) -> (entry: RouteEntry)
        ensures
            entry@ == (RouteEntryView { upstreams: upstreams@, patterns: texts(patterns@) }),
    {
        let mut path_matcher = PathMatcher::new();
        path_matcher.with_pattern(patterns);
        RouteEntry { upstreams, path_matcher }
    }

    /// The pool of backends.
    pub fn upstreams(&self) -> (pool: &UpstreamPool)
        ensures
            pool@ == self@.upstreams,
    {
        &self.upstreams
    }

    /// The matcher that guards the entry.
    pub fn path_matcher(&self) -> (matcher: &PathMatcher)
        ensures
            matcher@ == self@.patterns,
    {
        &self.path_matcher
    }

    /// Whether the entry's matcher lets `path` through.
    pub fn matches(&self, path: &str) -> (matched: bool)
        ensures
            matched == crate::stores::path_matcher::admits(self@.patterns, path@),
    {
        self.path_matcher.matches(path)
    }
}

/// The entry that `entries` holds for `host`, if any.
pub open spec fn route_for(entries: Map<Seq<char>, RouteEntryView>, host: Seq<char>) -> Option<
    RouteEntryView,
> {
    if entries.contains_key(host) {
        Some(entries[host])
    } else {
        None
    }
}

/// Maps host names, compared as they were received, to route entries. Its
/// view is that mapping, so a host has at most one entry at any time.
pub struct RouteStore {
    table: DashMap<String, Arc<RouteEntry>>,
}

impl View for RouteStore {
    type V = Map<Seq<char>, RouteEntryView>;

    closed spec fn view(&self) -> Map<Seq<char>, RouteEntryView> {
        route_entries(self.table)
    }
}

impl RouteStore {
    /// A store that knows no host.
    pub fn new() -> (store: RouteStore)
        ensures
            store@ == Map::<Seq<char>, RouteEntryView>::empty(),
    {
        let store = RouteStore { table: route_table_new() };
        assert(store@ =~= Map::<Seq<char>, RouteEntryView>::empty());
        store
    }

    /// Installs `entry` for `host`. An entry that the host had is dropped as a
    /// whole: nothing of it is merged into the new one. No other host is
    /// touched.
    pub fn insert(&mut self, host: String, entry: Arc<RouteEntry>)
        ensures
            final(self)@ == old(self)@.insert(host@, entry@),
    {
        route_table_insert(&mut self.table, host, entry);
    }

    /// The entry installed for `host`, or `None` for an unknown host.
    pub fn get(&self, host: &str) -> (found: Option<Arc<RouteEntry>>)
        ensures
            match found {
                Some(entry) => route_for(self@, host@) == Some(entry@),
                None => route_for(self@, host@) is None,
            },
    {
        route_table_get(&self.table, host)
    }

    /// A store of its own with the same entries. A writer changes the copy
    /// and publishes it, while readers go on with the store they hold.
    pub fn snapshot(&self) -> (copy: RouteStore)
        ensures
            copy@ == self@,
    {
        RouteStore { table: route_table_clone(&self.table) }
    }

    /// The hosts that have an entry, each once, in no particular order.
    pub fn list_hosts(&self) -> (hosts: Vec<String>)
        ensures
            texts(hosts@).no_duplicates(),
            texts(hosts@).to_set() == self@.dom(),
    {
        route_table_hosts(&self.table)
    }
}

/// An entry that was installed for a host is the one that is read back for
/// it.
pub proof fn lemma_route_read_back(
    entries: Map<Seq<char>, RouteEntryView>,
    host: Seq<char>,
    entry: RouteEntryView,
)
    ensures
        route_for(entries.insert(host, entry), host) == Some(entry),
{
}

/// Of two entries installed for one host the later one wins, and the table is
/// as if the earlier one had never been installed: its backends are gone
/// unless the later entry names them itself.
pub proof fn lemma_route_last_writer_wins(
    entries: Map<Seq<char>, RouteEntryView>,
    host: Seq<char>,
    first: RouteEntryView,
    second: RouteEntryView,
)
    ensures
        route_for(entries.insert(host, first).insert(host, second), host) == Some(second),
        entries.insert(host, first).insert(host, second) == entries.insert(host, second),
{
    assert(entries.insert(host, first).insert(host, second) =~= entries.insert(host, second));
}

/// Installing an entry for one host changes what no other host resolves to.
pub proof fn lemma_route_other_hosts_untouched(
    entries: Map<Seq<char>, RouteEntryView>,
    host: Seq<char>,
    entry: RouteEntryView,
    other: Seq<char>,
)
    requires
        other != host,
    ensures
        route_for(entries.insert(host, entry), other) == route_for(entries, other),
{
}

} // verus!
