//! The shape of the static configuration that the routing service starts
//! from.

use vstd::prelude::*;

verus! {

/// One configured backend.
#[derive(Clone, Debug, PartialEq, Eq)]
pub struct Upstream {
    pub ip: String,
    pub port: u16,
}

/// The path patterns of a match rule.
#[derive(Clone, Debug, PartialEq, Eq)]
pub struct RoutePathMatcher {
    pub patterns: Vec<String>,
}

/// The match rule of a route. Only paths can be matched on.
#[derive(Clone, Debug, PartialEq, Eq)]
pub struct RouteMatcher {
    pub path: Option<RoutePathMatcher>,
}

/// One configured route: a host, its backends and an optional match rule.
#[derive(Clone, Debug, PartialEq, Eq)]
pub struct Route {
    pub host: String,
    pub upstreams: Vec<Upstream>,
    pub match_with: Option<RouteMatcher>,
}

/// The static configuration: the routes to install at startup, and the number
/// of worker threads, which is handed on to the connection engine as it is.
#[derive(Clone, Debug, PartialEq, Eq)]
pub struct Config {
    pub routes: Vec<Route>,
    pub worker_threads: Option<usize>,
}

} // verus!
