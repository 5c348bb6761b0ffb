//! The order tracker: which authorization challenges are in flight, and which
//! issued certificates wait to be persisted.

use vstd::hash_map::StringHashMap;
use vstd::prelude::*;

use crate::text::chars_of;

verus! {

/// The part of a key authorization that is derived from the account key: its
/// thumbprint. Together with a challenge's token it makes up the response to
/// that challenge.
#[derive(Clone, Debug, PartialEq, Eq)]
pub struct KeyAuthorization {
    thumbprint: String,
}

impl View for KeyAuthorization {
    type V = Seq<char>;

    closed spec fn view(&self) -> Seq<char> {
        self.thumbprint@
    }
}

/// The response to the challenge with `token`, for an account key with
/// `thumbprint`: the two, joined by a dot.
pub open spec fn key_authorization_value(token: Seq<char>, thumbprint: Seq<char>) -> Seq<char> {
    token + seq!['.'] + thumbprint
}

impl KeyAuthorization {
    /// The key authorization of an account key with `thumbprint`.
    pub fn new(thumbprint: String) -> (key_auth: KeyAuthorization)
        ensures
            key_auth@ == thumbprint@,
    {
        KeyAuthorization { thumbprint }
    }

    /// Reads a key authorization from its full value for the challenge with
    /// `token`. The value must be the token, a dot and the thumbprint;
    /// anything else is `None`.
    pub fn from_value(token: &str, value: &str) -> (parsed: Option<KeyAuthorization>)
        ensures
            match parsed {
                Some(key_auth) => value@ == key_authorization_value(token@, key_auth@),
                None => forall|thumbprint: Seq<char>|
                    value@ != #[trigger] key_authorization_value(token@, thumbprint),
            },
    {
        let t: Vec<char> = chars_of(token);
        let v: Vec<char> = chars_of(value);
        let n: usize = t.len();
        if v.len() <= n {
            assert forall|thumbprint: Seq<char>|
                value@ != #[trigger] key_authorization_value(token@, thumbprint) by {
                assert(key_authorization_value(token@, thumbprint).len() > n);
            }
            return None;
        }
        let mut i: usize = 0;
        while i < n
            invariant
                i <= n,
                n == t.len(),
                n < v.len(),
                t@ == token@,
                v@ == value@,
                forall|k: int| 0 <= k < i ==> t@[k] == v@[k],
            decreases n - i,
        {
            if t[i] != v[i] {
                assert forall|thumbprint: Seq<char>|
                    value@ != #[trigger] key_authorization_value(token@, thumbprint) by {
                    assert(key_authorization_value(token@, thumbprint)[i as int] == t@[i as int]);
                }
                return None;
            }
            i += 1;
        }
        if v[n] != '.' {
            assert forall|thumbprint: Seq<char>|
                value@ != #[trigger] key_authorization_value(token@, thumbprint) by {
                assert(key_authorization_value(token@, thumbprint)[n as int] == '.');
            }
            return None;
        }
        let thumbprint: String = value.substring_char(n + 1, v.len()).to_owned();
        assert(value@ =~= key_authorization_value(token@, thumbprint@));
        Some(KeyAuthorization { thumbprint })
    }

    /// The thumbprint of the account key.
    pub fn thumbprint(&self) -> (thumbprint: &str)
        ensures
            thumbprint@ == self@,
    {
        self.thumbprint.as_str()
    }

    /// The full value for the challenge with `token`.
    pub fn value(&self, token: &str) -> (value: String)
        ensures
            value@ == key_authorization_value(token@, self@),
    {
        let mut value: String = token.to_owned();
        proof {
            reveal_strlit(".");
        }
        value.append(".");
        value.append(self.thumbprint.as_str());
        assert(value@ =~= key_authorization_value(token@, self@));
        value
    }
}

/// An order that awaits validation, as it is tracked: the challenge's token,
/// the URL at which the challenge is validated, and the key authorization.
pub type PendingOrder = (String, String, KeyAuthorization);

/// A tracked order as mathematical values: token, validation URL and
/// thumbprint.
pub type OrderView = (Seq<char>, Seq<char>, Seq<char>);

/// What the tracker holds: the pending orders by domain identifier, and the
/// issued certificates by host.
pub struct StorageView {
    pub orders: Map<Seq<char>, OrderView>,
    pub certificates: Map<Seq<char>, Seq<char>>,
}

/// Bookkeeping of certificate issuance. An identifier has a pending order
/// from the moment its authorization is registered until the order is removed
/// again, because it was finalized or given up.
pub struct Storage {
    orders: StringHashMap<PendingOrder>,
    certificates: StringHashMap<String>,
}

impl View for Storage {
    type V = StorageView;

    closed spec fn view(&self) -> StorageView {
        StorageView {
            orders: self.orders@.map_values(|order: PendingOrder| order@),
            certificates: self.certificates@.map_values(|certificate: String| certificate@),
        }
    }
}

impl Storage {
    /// A tracker without orders and without certificates.
    pub fn new() -> (storage: Storage)
        ensures
            storage@.orders == Map::<Seq<char>, OrderView>::empty(),
            storage@.certificates == Map::<Seq<char>, Seq<char>>::empty(),
    {
        let storage = Storage { orders: StringHashMap::new(), certificates: StringHashMap::new() };
        assert(storage@.orders =~= Map::<Seq<char>, OrderView>::empty());
        assert(storage@.certificates =~= Map::<Seq<char>, Seq<char>>::empty());
        storage
    }

    /// Registers the pending order of `identifier`, in place of one that it
    /// had.
    pub fn add_order(
        &mut self,
        identifier: String,
        token: String,
        url: String,
        key_auth: KeyAuthorization,
    )
        ensures
            final(self)@.orders == old(self)@.orders.insert(
                identifier@,
                (token@, url@, key_auth@),
            ),
            final(self)@.certificates == old(self)@.certificates,
    {
        self.orders.insert(identifier, (token, url, key_auth));
        assert(self@.orders =~= old(self)@.orders.insert(identifier@, (token@, url@, key_auth@)));
    }

    /// Drops the pending order of `identifier`, if it has one.
    pub fn remove_order(&mut self, identifier: &str)
        ensures
            final(self)@.orders == old(self)@.orders.remove(identifier@),
            final(self)@.certificates == old(self)@.certificates,
    {
        self.orders.remove(identifier);
        assert(self@.orders =~= old(self)@.orders.remove(identifier@));
    }

    /// Keeps the issued `certificate` of `host`, in place of one that was
    /// kept for it.
    pub fn add_certificate(&mut self, host: String, certificate: String)
        ensures
            final(self)@.certificates == old(self)@.certificates.insert(host@, certificate@),
            final(self)@.orders == old(self)@.orders,
    {
        self.certificates.insert(host, certificate);
        assert(self@.certificates =~= old(self)@.certificates.insert(host@, certificate@));
    }

    /// The certificate kept for `host`, if any.
    pub fn get_certificate(&self, host: &str) -> (found: Option<&String>)
        ensures
            match found {
                Some(certificate) => self@.certificates.contains_key(host@)
                    && self@.certificates[host@] == certificate@,
                None => !self@.certificates.contains_key(host@),
            },
    {
        self.certificates.get(host)
    }

    /// The table of pending orders.
    pub fn get_orders(&self) -> (orders: &StringHashMap<PendingOrder>)
        ensures
            orders@.map_values(|order: PendingOrder| order@) == self@.orders,
    {
        &self.orders
    }

    /// The pending order of the identifier `order`, if it has one.
    pub fn get_order(&self, order: &str) -> (found: Option<&PendingOrder>)
        ensures
            match found {
                Some(pending) => self@.orders.contains_key(order@) && self@.orders[order@]
                    == pending@,
                None => !self@.orders.contains_key(order@),
            },
    {
        self.orders.get(order)
    }

    /// Whether `identifier` has a pending order.
    pub fn has_order(&self, identifier: &str) -> (pending: bool)
        ensures
            pending == self@.orders.contains_key(identifier@),
    {
        self.orders.contains_key(identifier)
    }
}

impl Default for Storage {
    fn default() -> (storage: Storage)
        ensures
            storage@.orders == Map::<Seq<char>, OrderView>::empty(),
            storage@.certificates == Map::<Seq<char>, Seq<char>>::empty(),
    {
        Storage::new()
    }
}

} // verus!
