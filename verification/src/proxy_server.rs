//! What the connection engine asks on every request and every handshake:
//! which certificate to present, and where a request goes.
//!
//! Nothing here waits or does I/O: each answer is a lookup.

use std::sync::Arc;

use vstd::prelude::*;

use crate::services::letsencrypt::{challenge_reply, challenge_response};
use crate::storage::Storage;
use crate::stores::certificates::{certificate_for, Certificate, CertificateStore, CertificateView};
use crate::stores::path_matcher::admits;
use crate::stores::routes::{RouteEntry, RouteEntryView, RouteStore};

verus! {

/// The record to present for the server name of a handshake: the one stored
/// for that name, and none for a handshake without a name or for an unknown
/// host.
pub open spec fn certificate_choice(
    entries: Map<Seq<char>, CertificateView>,
    server_name: Option<Seq<char>>,
) -> Option<CertificateView> {
    match server_name {
        Some(name) => certificate_for(entries, name),
        None => None,
    }
}

/// Picks the certificate for a handshake. `None` tells the TLS engine that
/// there is no certificate; what it does then is its own affair.
pub fn select_certificate(store: &CertificateStore, server_name: Option<&str>) -> (chosen: Option<
    Certificate,
>)
    ensures
        match chosen {
            Some(record) => certificate_choice(
                store@,
                match server_name {
                    Some(name) => Some(name@),
                    None => None,
                },
            ) == Some(record@),
            None => certificate_choice(
                store@,
                match server_name {
                    Some(name) => Some(name@),
                    None => None,
                },
            ) is None,
        },
{
    match server_name {
        Some(name) => store.get(name),
        None => None,
    }
}

/// The entry that serves a request for `path` on `host`: the host's entry,
/// if it has one and the entry's matcher lets the path through.
pub open spec fn routed(
    entries: Map<Seq<char>, RouteEntryView>,
    host: Seq<char>,
    path: Seq<char>,
) -> Option<RouteEntryView> {
    if entries.contains_key(host) && admits(entries[host].patterns, path) {
        Some(entries[host])
    } else {
        None
    }
}

/// Finds the entry that serves a request, or `None` where there is no
/// route for it.
pub fn route_request(store: &RouteStore, host: &str, path: &str) -> (target: Option<
    Arc<RouteEntry>,
>)
    ensures
        match target {
            Some(entry) => routed(store@, host@, path@) == Some(entry@),
            None => routed(store@, host@, path@) is None,
        },
{
    match store.get(host) {
        Some(entry) => {
            if entry.matches(path) {
                Some(entry)
            } else {
                None
            }
        },
        None => None,
    }
}

/// Where a request on the plaintext entry point goes.
#[derive(Clone, Debug, PartialEq, Eq)]
pub enum HttpDispatch {
    /// It asks for a pending challenge: answer with status 200 and this
    /// body.
    Challenge(String),
    /// It is forwarded to this entry's pool.
    Forward(Arc<RouteEntry>),
    /// There is no route for it.
    NoRoute,
}

/// Decides where a request on the plaintext entry point goes. A request for
/// a pending challenge is answered whatever the route store says of the
/// host; every other request goes by the route store.
pub fn dispatch_plain_http(storage: &Storage, store: &RouteStore, host: &str, path: &str) -> (
    dispatch: HttpDispatch
)
    ensures
        match dispatch {
            HttpDispatch::Challenge(body) => challenge_reply(storage@.orders, host@, path@)
                == Some(body@),
            HttpDispatch::Forward(entry) => challenge_reply(storage@.orders, host@, path@)
                is None && routed(store@, host@, path@) == Some(entry@),
            HttpDispatch::NoRoute => challenge_reply(storage@.orders, host@, path@) is None
                && routed(store@, host@, path@) is None,
        },
{
    match challenge_response(storage, host, path) {
        Some(body) => HttpDispatch::Challenge(body),
        None => match route_request(store, host, path) {
            Some(entry) => HttpDispatch::Forward(entry),
            None => HttpDispatch::NoRoute,
        },
    }
}

} // verus!
