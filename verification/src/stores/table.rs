//! The concurrent hash table that backs the stores, and what this crate
//! relies on it to do.
//!
//! Every function here hands its work to `dashmap::DashMap`; its contract is
//! taken on trust from that crate. A table is only ever written through
//! `&mut`, so no other reference into it exists while it changes.

use std::sync::Arc;

use dashmap::DashMap;
use vstd::prelude::*;

use crate::stores::certificates::{Certificate, CertificateView};
use crate::stores::routes::{RouteEntry, RouteEntryView};
use crate::text::texts;

verus! {

/// `dashmap::DashMap`. Nothing inside a table is visible to the verifier;
/// what a table holds is named by `certificate_entries` and `route_entries`.
#[verifier::external_type_specification]
#[verifier::external_body]
#[verifier::reject_recursive_types(K)]
#[verifier::reject_recursive_types(V)]
#[verifier::reject_recursive_types(S)]
pub struct ExDashMap<K, V, S>(DashMap<K, V, S>);

/// The records that a certificate table holds, by host name.
pub uninterp spec fn certificate_entries(table: DashMap<String, Certificate>) -> Map<
    Seq<char>,
    CertificateView,
>;

/// `DashMap::new`: a table without entries.
#[verifier::external_body]
pub(crate) fn certificate_table_new() -> (fresh: DashMap<String, Certificate>)
    ensures
        forall|host: Seq<char>| !certificate_entries(fresh).contains_key(host),
{
    DashMap::new()
}

/// `DashMap::insert`: the entry for `host` is `record` afterwards, whether or
/// not the host had one; every other entry stays as it was.
#[verifier::external_body]
pub(crate) fn certificate_table_insert(
    table: &mut DashMap<String, Certificate>,
    host: String,
    record: Certificate,
)
    ensures
        certificate_entries(*final(table)) == certificate_entries(*old(table)).insert(
            host@,
            record@,
        ),
{
    let _ = table.insert(host, record);
}

/// `DashMap::get`: the entry for `host`, copied out of the table, or `None`
/// where the host has none.
#[verifier::external_body]
pub(crate) fn certificate_table_get(table: &DashMap<String, Certificate>, host: &str) -> (found:
    Option<Certificate>)
    ensures
        found is Some <==> certificate_entries(*table).contains_key(host@),
        found is Some ==> found->0@ == certificate_entries(*table)[host@],
{
    match table.get(host) {
        Some(entry) => Some(entry.value().clone()),
        None => None,
    }
}

/// `DashMap::clone`: a second table with the same records, each copied.
#[verifier::external_body]
pub(crate) fn certificate_table_clone(table: &DashMap<String, Certificate>) -> (copy: DashMap<
    String,
    Certificate,
>)
    ensures
        certificate_entries(copy) == certificate_entries(*table),
{
    table.clone()
}

/// The entries that a route table holds, by host name.
pub uninterp spec fn route_entries(table: DashMap<String, Arc<RouteEntry>>) -> Map<
    Seq<char>,
    RouteEntryView,
>;

/// `DashMap::new`: a table without entries.
#[verifier::external_body]
pub(crate) fn route_table_new() -> (fresh: DashMap<String, Arc<RouteEntry>>)
    ensures
        forall|host: Seq<char>| !route_entries(fresh).contains_key(host),
{
    DashMap::new()
}

/// `DashMap::insert`: the entry for `host` is `entry` afterwards, whether or
/// not the host had one; every other entry stays as it was.
#[verifier::external_body]
pub(crate) fn route_table_insert(
    table: &mut DashMap<String, Arc<RouteEntry>>,
    host: String,
    entry: Arc<RouteEntry>,
)
    ensures
        route_entries(*final(table)) == route_entries(*old(table)).insert(host@, entry@),
{
    let _ = table.insert(host, entry);
}

/// `DashMap::get`: a handle to the entry for `host`, or `None` where the host
/// has none.
#[verifier::external_body]
pub(crate) fn route_table_get(table: &DashMap<String, Arc<RouteEntry>>, host: &str) -> (found:
    Option<Arc<RouteEntry>>)
    ensures
        found is Some <==> route_entries(*table).contains_key(host@),
        found is Some ==> found->0@ == route_entries(*table)[host@],
{
    match table.get(host) {
        Some(entry) => Some(entry.value().clone()),
        None => None,
    }
}

/// `DashMap::clone`: a second table with the same hosts, each with a handle
/// to the same entry.
#[verifier::external_body]
pub(crate) fn route_table_clone(table: &DashMap<String, Arc<RouteEntry>>) -> (copy: DashMap<
    String,
    Arc<RouteEntry>,
>)
    ensures
        route_entries(copy) == route_entries(*table),
{
    table.clone()
}

/// `DashMap::iter`: walks the table once and hands out every key. Each host
/// of the table comes exactly once; the order is the table's own.
#[verifier::external_body]
pub(crate) fn route_table_hosts(table: &DashMap<String, Arc<RouteEntry>>) -> (hosts: Vec<String>)
    ensures
        texts(hosts@).no_duplicates(),
        texts(hosts@).to_set() == route_entries(*table).dom(),
{
    table.iter().map(|entry| entry.key().clone()).collect()
}

} // verus!
