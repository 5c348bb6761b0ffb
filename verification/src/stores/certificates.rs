//! Certificate records and the store that the TLS layer consults.

use dashmap::DashMap;
use vstd::prelude::*;

use crate::stores::table::{
    certificate_entries, certificate_table_clone, certificate_table_get, certificate_table_insert,
    certificate_table_new,
};

verus! {

/// A certificate record: the private key and the certificate chain, both as
/// raw bytes.
#[derive(Clone, Debug, PartialEq, Eq)]
pub struct Certificate {
    pub key: Vec<u8>,
    pub certificate: Vec<u8>,
}

/// What a certificate record holds, as mathematical sequences of bytes.
pub struct CertificateView {
    pub key: Seq<u8>,
    pub certificate: Seq<u8>,
}

impl View for Certificate {
    type V = CertificateView;

    open spec fn view(&self) -> CertificateView {
        CertificateView { key: self.key@, certificate: self.certificate@ }
    }
}

impl Certificate {
    /// Bundles a private key and a certificate chain.
    pub fn new(key: Vec<u8>, certificate: Vec<u8>) -> (record: Certificate)
        ensures
            record@ == (CertificateView { key: key@, certificate: certificate@ }),
    {
        Certificate { key, certificate }
    }
}

/// The record that `entries` holds for `host`, if any.
pub open spec fn certificate_for(
    entries: Map<Seq<char>, CertificateView>,
    host: Seq<char>,
) -> Option<CertificateView> {
    if entries.contains_key(host) {
        Some(entries[host])
    } else {
        None
    }
}

/// Maps host names to certificate records. Its view is that mapping.
///
/// A record, once stored, is what a lookup for the same host returns until
/// another record is stored for that host.
pub struct CertificateStore {
    table: DashMap<String, Certificate>,
}

impl View for CertificateStore {
    type V = Map<Seq<char>, CertificateView>;

    closed spec fn view(&self) -> Map<Seq<char>, CertificateView> {
        certificate_entries(self.table)
    }
}

impl CertificateStore {
    /// A store that knows no host.
    pub fn new() -> (store: CertificateStore)
        ensures
            store@ == Map::<Seq<char>, CertificateView>::empty(),
    {
        let store = CertificateStore { table: certificate_table_new() };
        assert(store@ =~= Map::<Seq<char>, CertificateView>::empty());
        store
    }

    /// Stores `record` for `host`, in place of any record the host had.
    /// No other host is touched.
    pub fn insert(&mut self, host: String, record: Certificate)
        ensures
            final(self)@ == old(self)@.insert(host@, record@),
    {
        certificate_table_insert(&mut self.table, host, record);
    }

    /// The record stored for `host`, or `None` for a host without one.
    pub fn get(&self, host: &str) -> (found: Option<Certificate>)
        ensures
            match found {
                Some(record) => certificate_for(self@, host@) == Some(record@),
                None => certificate_for(self@, host@) is None,
            },
    {
        certificate_table_get(&self.table, host)
    }

    /// A store of its own with the same records. A writer changes the copy
    /// and publishes it, while readers go on with the store they hold.
    pub fn snapshot(&self) -> (copy: CertificateStore)
        ensures
            copy@ == self@,
    {
        CertificateStore { table: certificate_table_clone(&self.table) }
    }

    /// Whether a record is stored for `host`.
    pub fn contains(&self, host: &str) -> (known: bool)
        ensures
            known == self@.contains_key(host@),
    {
        self.get(host).is_some()
    }
}

/// A record that was stored for a host is the one that is read back for it.
pub proof fn lemma_certificate_read_back(
    entries: Map<Seq<char>, CertificateView>,
    host: Seq<char>,
    record: CertificateView,
)
    ensures
        certificate_for(entries.insert(host, record), host) == Some(record),
{
}

/// Storing a record for one host changes what no other host reads.
pub proof fn lemma_certificate_other_hosts_untouched(
    entries: Map<Seq<char>, CertificateView>,
    host: Seq<char>,
    record: CertificateView,
    other: Seq<char>,
)
    requires
        other != host,
    ensures
        certificate_for(entries.insert(host, record), other) == certificate_for(entries, other),
{
}

/// Of two records stored for one host, only the later one is left.
pub proof fn lemma_certificate_renewal_replaces(
    entries: Map<Seq<char>, CertificateView>,
    host: Seq<char>,
    first: CertificateView,
    second: CertificateView,
)
    ensures
        entries.insert(host, first).insert(host, second) == entries.insert(host, second),
{
    assert(entries.insert(host, first).insert(host, second) =~= entries.insert(host, second));
}

} // verus!
