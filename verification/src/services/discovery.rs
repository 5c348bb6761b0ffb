//! Route discovery: installs the configured routes at startup, then one
//! route for every route-change message that arrives.
//!
//! Whether the addresses of a pool resolve is found out by the caller, who
//! passes the answer in; what follows from it is decided here.

use std::sync::Arc;

use tokio::sync::broadcast::Sender;
use vstd::prelude::*;

use crate::address::{
    format_upstream, is_well_formed, upstream_address, well_formed_address,
};
use crate::config::{Config, Route, RouteMatcher, RoutePathMatcher};
use crate::stores::routes::{RouteEntry, RouteEntryView, RouteStore, UpstreamPool, UpstreamPoolView};
use crate::text::texts;

verus! {

/// `tokio::sync::broadcast::Sender`, the sending end of the discovery
/// channel. The service keeps it for its listener and never looks inside.
#[verifier::external_type_specification]
#[verifier::external_body]
#[verifier::reject_recursive_types(T)]
pub struct ExSender<T>(Sender<T>);

/// The number of seconds between two health checks of a pool.
pub const HEALTH_CHECK_SECS: u64 = 15;

/// A route change as a discovery source reports it.
#[derive(Clone, Debug, PartialEq, Eq)]
pub struct DiscoveryEvent {
    pub host: String,
    pub upstreams: Vec<String>,
    pub match_with: Option<RouteMatcher>,
}

/// A message on the discovery channel.
#[derive(Clone, Debug, PartialEq, Eq)]
pub enum MsgProxy {
    NewRoute(DiscoveryEvent),
}

/// Whether the addresses of a pool could be resolved.
#[derive(Clone, Copy, Debug, PartialEq, Eq)]
pub enum PoolResolution {
    Resolved,
    Unresolvable,
}

/// What one wait on the discovery channel brought: a message, the news that
/// this many older messages were dropped unread, or the channel's end.
#[derive(Clone, Debug, PartialEq, Eq)]
pub enum Received {
    Message(MsgProxy),
    Lagged(u64),
    Closed,
}

/// What became of something received.
#[derive(Clone, Copy, Debug, PartialEq, Eq)]
pub enum Handled {
    /// The route was installed.
    Installed,
    /// The route was skipped, the store is as before.
    Skipped,
    /// This many messages were lost; there is nothing to install.
    Lagged(u64),
    /// The channel has ended.
    Closed,
}

/// The two phases of the routing service.
#[derive(Clone, Copy, Debug, PartialEq, Eq)]
pub enum ServicePhase {
    Bootstrapping,
    Serving,
}

/// Whether every address of `upstreams` is well formed.
pub open spec fn all_well_formed(upstreams: Seq<Seq<char>>) -> bool {
    forall|i: int| 0 <= i < upstreams.len() ==> well_formed_address(#[trigger] upstreams[i])
}

/// Whether a route with these upstreams is installed: every address is well
/// formed, and the pool resolved.
pub open spec fn route_accepted(upstreams: Seq<Seq<char>>, resolution: PoolResolution) -> bool {
    resolution == PoolResolution::Resolved && all_well_formed(upstreams)
}

/// The path patterns that a match rule asks for; none where there is no rule
/// or the rule has no path part.
pub open spec fn rule_patterns(match_with: Option<RouteMatcher>) -> Seq<Seq<char>> {
    match match_with {
        Some(rule) => match rule.path {
            Some(path) => texts(path.patterns@),
            None => Seq::empty(),
        },
        None => Seq::empty(),
    }
}

/// The entry that is installed for a route with these upstreams and
/// patterns.
pub open spec fn planned_entry(
    upstreams: Seq<Seq<char>>,
    patterns: Seq<Seq<char>>,
) -> RouteEntryView {
    RouteEntryView {
        upstreams: UpstreamPoolView { backends: upstreams, health_check_secs: HEALTH_CHECK_SECS },
        patterns,
    }
}

/// The table after a route was offered to it: with the route's entry in the
/// place of the host's earlier one where the route is accepted, and as
/// before where it is not.
pub open spec fn with_route(
    entries: Map<Seq<char>, RouteEntryView>,
    host: Seq<char>,
    upstreams: Seq<Seq<char>>,
    resolution: PoolResolution,
    match_with: Option<RouteMatcher>,
) -> Map<Seq<char>, RouteEntryView> {
    if route_accepted(upstreams, resolution) {
        entries.insert(host, planned_entry(upstreams, rule_patterns(match_with)))
    } else {
        entries
    }
}

fn check_addresses(upstreams: &Vec<String>) -> (ok: bool)
    ensures
        ok == all_well_formed(texts(upstreams@)),
{
    let mut i: usize = 0;
    while i < upstreams.len()
        invariant
            i <= upstreams.len(),
            forall|k: int| 0 <= k < i ==> well_formed_address(#[trigger] texts(upstreams@)[k]),
        decreases upstreams.len() - i,
    {
        if !is_well_formed(upstreams[i].as_str()) {
            assert(!well_formed_address(texts(upstreams@)[i as int]));
            return false;
        }
        i += 1;
    }
    true
}

fn copy_texts(source: &Vec<String>) -> (copy: Vec<String>)
    ensures
        texts(copy@) == texts(source@),
{
    let mut copy: Vec<String> = Vec::new();
    let mut i: usize = 0;
    while i < source.len()
        invariant
            i <= source.len(),
            copy.len() == i,
            forall|k: int| 0 <= k < i ==> copy@[k]@ == source@[k]@,
        decreases source.len() - i,
    {
        copy.push(source[i].clone());
        i += 1;
    }
    assert(texts(copy@) =~= texts(source@));
    copy
}

fn copy_rule(match_with: &Option<RouteMatcher>) -> (copy: Option<RouteMatcher>)
    ensures
        rule_patterns(copy) == rule_patterns(*match_with),
{
    match match_with {
        Some(rule) => match &rule.path {
            Some(path) => Some(
                RouteMatcher {
                    path: Some(RoutePathMatcher { patterns: copy_texts(&path.patterns) }),
                },
            ),
            None => Some(RouteMatcher { path: None }),
        },
        None => None,
    }
}

/// Offers a route to the store. The route is installed, in place of any
/// entry the host had, where every address is well formed and the pool
/// resolved; else it is skipped and the store stays as it was.
pub fn add_route_to_router(
    store: &mut RouteStore,
    host: &str,
    upstreams: &Vec<String>,
    resolution: PoolResolution,
    match_with: Option<RouteMatcher>,
) -> (installed: bool)
    ensures
        installed == route_accepted(texts(upstreams@), resolution),
        final(store)@ == with_route(
            old(store)@,
            host@,
            texts(upstreams@),
            resolution,
            match_with,
        ),
{
    let well_formed: bool = check_addresses(upstreams);
    let resolved: bool = match resolution {
        PoolResolution::Resolved => true,
        PoolResolution::Unresolvable => false,
    };
    if !well_formed || !resolved {
        return false;
    }
    let pool = UpstreamPool::new(copy_texts(upstreams), HEALTH_CHECK_SECS);
    let patterns: Vec<String> = match match_with {
        Some(rule) => match rule.path {
            Some(path) => path.patterns,
            None => Vec::new(),
        },
        None => Vec::new(),
    };
    assert(texts(patterns@) =~= rule_patterns(match_with));
    let entry = RouteEntry::with_patterns(pool, patterns);
    store.insert(host.to_owned(), Arc::new(entry));
    true
}

/// The addresses of a configured route's backends, in their text form.
pub open spec fn route_upstreams(route: Route) -> Seq<Seq<char>> {
    Seq::new(
        route.upstreams@.len(),
        |i: int| upstream_address(route.upstreams@[i].ip@, route.upstreams@[i].port),
    )
}

/// The resolution of the route at `index`; a route without an answer counts
/// as unresolvable.
pub open spec fn resolution_at(resolutions: Seq<PoolResolution>, index: int) -> PoolResolution {
    if 0 <= index < resolutions.len() {
        resolutions[index]
    } else {
        PoolResolution::Unresolvable
    }
}

/// The table after the first `count` configured routes were offered to it,
/// one after the other. A route that is skipped changes nothing for the
/// routes after it.
pub open spec fn after_routes(
    entries: Map<Seq<char>, RouteEntryView>,
    routes: Seq<Route>,
    resolutions: Seq<PoolResolution>,
    count: nat,
) -> Map<Seq<char>, RouteEntryView>
    decreases count,
{
    if count == 0 {
        entries
    } else {
        let route = routes[count - 1];
        with_route(
            after_routes(entries, routes, resolutions, (count - 1) as nat),
            route.host@,
            route_upstreams(route),
            resolution_at(resolutions, count - 1),
            route.match_with,
        )
    }
}

/// Writes the addresses of a configured route's backends.
pub fn upstream_addresses(route: &Route) -> (addresses: Vec<String>)
    ensures
        texts(addresses@) == route_upstreams(*route),
{
    let mut addresses: Vec<String> = Vec::new();
    let mut i: usize = 0;
    while i < route.upstreams.len()
        invariant
            i <= route.upstreams.len(),
            addresses.len() == i,
            forall|k: int|
                0 <= k < i ==> addresses@[k]@ == upstream_address(
                    route.upstreams@[k].ip@,
                    route.upstreams@[k].port,
                ),
        decreases route.upstreams.len() - i,
    {
        let upstream = &route.upstreams[i];
        addresses.push(format_upstream(upstream.ip.as_str(), upstream.port));
        i += 1;
    }
    assert(texts(addresses@) =~= route_upstreams(*route));
    addresses
}

/// Keeps the route store in step with the configuration and with the
/// discovery channel. It starts out bootstrapping and serves from the moment
/// the configured routes have been gone through.
pub struct RoutingService {
    config: Arc<Config>,
    broadcast: Sender<MsgProxy>,
    phase: ServicePhase,
}

impl RoutingService {
    /// A service for `config` that listens on the channel of `broadcast`. It
    /// has not installed anything yet.
    pub fn new(config: Arc<Config>, broadcast: Sender<MsgProxy>) -> (service: RoutingService)
        ensures
            service.config() == *config,
            service.sender() == broadcast,
            service.phase() == ServicePhase::Bootstrapping,
    {
        RoutingService { config, broadcast, phase: ServicePhase::Bootstrapping }
    }

    /// The configuration that the service was made for.
    pub closed spec fn config(&self) -> Config {
        *self.config
    }

    /// The sending end of the discovery channel that the service was made
    /// with.
    pub closed spec fn sender(&self) -> Sender<MsgProxy> {
        self.broadcast
    }

    /// The phase that the service is in.
    pub closed spec fn phase(&self) -> ServicePhase {
        self.phase
    }

    /// The configured routes.
    pub fn routes(&self) -> (routes: &Vec<Route>)
        ensures
            *routes == self.config().routes,
    {
        &self.config.routes
    }

    /// The sending end of the discovery channel, from which a listener
    /// subscribes.
    pub fn broadcast(&self) -> (sender: &Sender<MsgProxy>)
        ensures
            *sender == self.sender(),
    {
        &self.broadcast
    }

    /// The phase that the service is in.
    pub fn current_phase(&self) -> (phase: ServicePhase)
        ensures
            phase == self.phase(),
    {
        self.phase
    }

    /// Offers every configured route to the store, in the order of the
    /// configuration; `resolutions` tells for each of them, by its place,
    /// whether its pool resolved. A route that is skipped does not keep the
    /// later ones from being installed. The service serves afterwards.
    pub fn add_routes_from_config(
        &mut self,
        store: &mut RouteStore,
        resolutions: &Vec<PoolResolution>,
    )
        ensures
            final(self).config() == old(self).config(),
            final(self).sender() == old(self).sender(),
            final(self).phase() == ServicePhase::Serving,
            final(store)@ == after_routes(
                old(store)@,
                old(self).config().routes@,
                resolutions@,
                old(self).config().routes@.len(),
            ),
    {
        let mut i: usize = 0;
        while i < self.config.routes.len()
            invariant
                i <= self.config.routes.len(),
                self.config() == old(self).config(),
                self.sender() == old(self).sender(),
                store@ == after_routes(
                    old(store)@,
                    self.config().routes@,
                    resolutions@,
                    i as nat,
                ),
            decreases self.config.routes.len() - i,
        {
            let route = &self.config.routes[i];
            let resolution: PoolResolution = if i < resolutions.len() {
                resolutions[i]
            } else {
                PoolResolution::Unresolvable
            };
            let addresses: Vec<String> = upstream_addresses(route);
            add_route_to_router(
                store,
                route.host.as_str(),
                &addresses,
                resolution,
                copy_rule(&route.match_with),
            );
            i += 1;
        }
        self.phase = ServicePhase::Serving;
    }

    /// Deals with what one wait on the discovery channel brought. A new route
    /// is offered to the store, with `resolution` telling whether its pool
    /// resolved; anything else leaves the store as it is.
    pub fn handle_message(
        &self,
        store: &mut RouteStore,
        received: Received,
        resolution: PoolResolution,
    ) -> (handled: Handled)
        ensures
            final(store)@ == after_message(old(store)@, received, resolution),
            handled == outcome_of(received, resolution),
    {
        match received {
            Received::Message(MsgProxy::NewRoute(event)) => {
                let installed: bool = add_route_to_router(
                    store,
                    event.host.as_str(),
                    &event.upstreams,
                    resolution,
                    event.match_with,
                );
                if installed {
                    Handled::Installed
                } else {
                    Handled::Skipped
                }
            },
            Received::Lagged(missed) => Handled::Lagged(missed),
            Received::Closed => Handled::Closed,
        }
    }

    /// The name under which the service runs.
    pub fn name(&self) -> (name: &'static str)
        ensures
            name@ == "proxy_service_discovery"@,
    {
        "proxy_service_discovery"
    }

    /// The number of threads that the service asks for: one.
    pub fn threads(&self) -> (threads: Option<usize>)
        ensures
            threads == Some(1usize),
    {
        Some(1)
    }
}

/// The table after something was received: a new route is offered to it,
/// anything else leaves it as it is.
pub open spec fn after_message(
    entries: Map<Seq<char>, RouteEntryView>,
    received: Received,
    resolution: PoolResolution,
) -> Map<Seq<char>, RouteEntryView> {
    match received {
        Received::Message(MsgProxy::NewRoute(event)) => with_route(
            entries,
            event.host@,
            texts(event.upstreams@),
            resolution,
            event.match_with,
        ),
        Received::Lagged(_) => entries,
        Received::Closed => entries,
    }
}

/// What is reported of something received.
pub open spec fn outcome_of(received: Received, resolution: PoolResolution) -> Handled {
    match received {
        Received::Message(MsgProxy::NewRoute(event)) => if route_accepted(
            texts(event.upstreams@),
            resolution,
        ) {
            Handled::Installed
        } else {
            Handled::Skipped
        },
        Received::Lagged(missed) => Handled::Lagged(missed),
        Received::Closed => Handled::Closed,
    }
}

/// A route whose pool did not resolve, or with an address that is not well
/// formed, leaves the table as it was, for its own host too.
pub proof fn lemma_rejected_route_changes_nothing(
    entries: Map<Seq<char>, RouteEntryView>,
    host: Seq<char>,
    upstreams: Seq<Seq<char>>,
    resolution: PoolResolution,
    match_with: Option<RouteMatcher>,
)
    requires
        resolution == PoolResolution::Unresolvable || exists|i: int|
            0 <= i < upstreams.len() && !well_formed_address(#[trigger] upstreams[i]),
    ensures
        with_route(entries, host, upstreams, resolution, match_with) == entries,
{
}

} // verus!
