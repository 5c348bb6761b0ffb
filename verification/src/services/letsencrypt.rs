//! Automated certificate issuance over HTTP-01 challenges: the decisions of
//! one host's workflow, and the answer to a challenge request.
//!
//! The talking to the certificate authority is done by the caller. It reports
//! what happened as an event, and is told what to do next.

use vstd::prelude::*;

use crate::storage::{key_authorization_value, KeyAuthorization, OrderView, Storage};
use crate::stores::certificates::{Certificate, CertificateStore, CertificateView};
use crate::text::{chars_of, same_text};

verus! {

/// The path under which the challenge with `token` is answered.
pub open spec fn challenge_path(token: Seq<char>) -> Seq<char> {
    "/.well-known/acme-challenge/"@ + token
}

/// Whether `path` lies under the directory of the challenges.
pub open spec fn under_challenge_directory(path: Seq<char>) -> bool {
    let directory = "/.well-known/acme-challenge/"@;
    path.len() >= directory.len() && path.subrange(0, directory.len() as int) == directory
}

/// Decides `under_challenge_directory`. A request for any other path can be
/// routed without a look at the order tracker.
pub fn is_challenge_path(path: &str) -> (under: bool)
    ensures
        under == under_challenge_directory(path@),
{
    let directory: Vec<char> = chars_of("/.well-known/acme-challenge/");
    let p: Vec<char> = chars_of(path);
    let n: usize = directory.len();
    if p.len() < n {
        return false;
    }
    let mut i: usize = 0;
    while i < n
        invariant
            i <= n,
            n == directory.len(),
            n <= p.len(),
            p@ == path@,
            directory@ == "/.well-known/acme-challenge/"@,
            forall|k: int| 0 <= k < i ==> p@[k] == directory@[k],
        decreases n - i,
    {
        if p[i] != directory[i] {
            assert(path@.subrange(0, n as int)[i as int] != directory@[i as int]);
            return false;
        }
        i += 1;
    }
    assert(path@.subrange(0, n as int) =~= directory@);
    true
}

/// Only a path under the directory of the challenges is ever answered as a
/// challenge.
pub proof fn lemma_reply_only_under_challenge_directory(
    orders: Map<Seq<char>, OrderView>,
    host: Seq<char>,
    path: Seq<char>,
)
    requires
        !under_challenge_directory(path),
    ensures
        challenge_reply(orders, host, path) is None,
{
    if orders.contains_key(host) && path == challenge_path(orders[host].0) {
        let directory = "/.well-known/acme-challenge/"@;
        assert(path.subrange(0, directory.len() as int) =~= directory);
    }
}

/// The body that answers a request for `path` on `host`: the key
/// authorization of the host's pending order where the path is that of the
/// order's challenge, and nothing otherwise.
pub open spec fn challenge_reply(
    orders: Map<Seq<char>, OrderView>,
    host: Seq<char>,
    path: Seq<char>,
) -> Option<Seq<char>> {
    if orders.contains_key(host) && path == challenge_path(orders[host].0) {
        Some(key_authorization_value(orders[host].0, orders[host].2))
    } else {
        None
    }
}

/// Answers a challenge request, as long as the order is pending.
pub fn challenge_response(storage: &Storage, host: &str, path: &str) -> (body: Option<String>)
    ensures
        match body {
            Some(text) => challenge_reply(storage@.orders, host@, path@) == Some(text@),
            None => challenge_reply(storage@.orders, host@, path@) is None,
        },
{
    match storage.get_order(host) {
        Some(order) => {
            let mut expected: String = "/.well-known/acme-challenge/".to_owned();
            expected.append(order.0.as_str());
            if same_text(path, expected.as_str()) {
                Some(order.2.value(order.0.as_str()))
            } else {
                None
            }
        },
        None => None,
    }
}

/// Where the workflow of a host stands.
#[derive(Clone, Copy, Debug, PartialEq, Eq)]
pub enum WorkflowState {
    /// No order is in flight.
    Idle,
    /// A new order was asked for.
    Requesting,
    /// The order exists; its challenge was asked for.
    Authorizing,
    /// The challenge is registered and can be answered; the order's status
    /// is being polled.
    Validating,
    /// The order is valid; its certificate was asked for.
    Finalizing,
}

/// The status of an order, as a poll reports it.
#[derive(Clone, Copy, Debug, PartialEq, Eq)]
pub enum OrderStatus {
    Pending,
    Valid,
    Invalid,
    Expired,
}

/// What the caller reports to a workflow.
#[derive(Clone, Debug, PartialEq, Eq)]
pub enum AcmeEvent {
    /// The schedule came round to this host; `renewal_due` tells whether its
    /// certificate is to be renewed.
    Tick { renewal_due: bool },
    /// The order was created.
    OrderCreated,
    /// The authorization's HTTP-01 challenge was obtained.
    ChallengeReceived { token: String, url: String, key_authorization: KeyAuthorization },
    /// The order's status was polled.
    StatusPolled(OrderStatus),
    /// The order was finalized and the certificate issued.
    CertificateIssued(Certificate),
    /// A request to the certificate authority failed.
    Failed,
}

/// What the caller is to do next.
#[derive(Clone, Copy, Debug, PartialEq, Eq)]
pub enum AcmeAction {
    /// Nothing, until the schedule comes round again.
    Rest,
    /// Ask for a new order for the host.
    RequestOrder,
    /// Ask for the order's authorization and its HTTP-01 challenge.
    RequestChallenge,
    /// Tell the authority that the challenge can be validated, then poll.
    NotifyReady,
    /// Poll the order's status again.
    PollStatus,
    /// Finalize the order and fetch the certificate.
    Finalize,
}

/// The state of one host's workflow, together with the pending orders and
/// the certificate store that it works on.
pub struct Snapshot {
    pub state: WorkflowState,
    pub orders: Map<Seq<char>, OrderView>,
    pub certificates: Map<Seq<char>, CertificateView>,
}

/// Whether a tick starts a workflow: never while the host has a pending
/// order, and else where a renewal is due or the host has no certificate.
pub open spec fn starts(host: Seq<char>, before: Snapshot, renewal_due: bool) -> bool {
    !before.orders.contains_key(host) && (renewal_due || !before.certificates.contains_key(host))
}

/// The snapshot after an attempt was given up: the host's pending order is
/// gone and the certificates are as they were.
pub open spec fn given_up(host: Seq<char>, before: Snapshot) -> Snapshot {
    Snapshot {
        state: WorkflowState::Idle,
        orders: before.orders.remove(host),
        certificates: before.certificates,
    }
}

/// The snapshot in a new state, with nothing else changed.
pub open spec fn moved_to(state: WorkflowState, before: Snapshot) -> Snapshot {
    Snapshot { state, orders: before.orders, certificates: before.certificates }
}

/// The snapshot after `event` was reported to the workflow of `host`.
///
/// An idle workflow starts on a tick, if it may, and ignores everything
/// else. One in flight ignores ticks, moves on with the event that its state
/// waits for, and gives the attempt up on any other.
pub open spec fn step_spec(host: Seq<char>, before: Snapshot, event: AcmeEvent) -> Snapshot {
    match before.state {
        WorkflowState::Idle => match event {
            AcmeEvent::Tick { renewal_due } => if starts(host, before, renewal_due) {
                moved_to(WorkflowState::Requesting, before)
            } else {
                before
            },
            _ => before,
        },
        WorkflowState::Requesting => match event {
            AcmeEvent::Tick { .. } => before,
            AcmeEvent::OrderCreated => moved_to(WorkflowState::Authorizing, before),
            _ => given_up(host, before),
        },
        WorkflowState::Authorizing => match event {
            AcmeEvent::Tick { .. } => before,
            AcmeEvent::ChallengeReceived { token, url, key_authorization } => Snapshot {
                state: WorkflowState::Validating,
                orders: before.orders.insert(host, (token@, url@, key_authorization@)),
                certificates: before.certificates,
            },
            _ => given_up(host, before),
        },
        WorkflowState::Validating => match event {
            AcmeEvent::Tick { .. } => before,
            AcmeEvent::StatusPolled(OrderStatus::Pending) => before,
            AcmeEvent::StatusPolled(OrderStatus::Valid) => moved_to(
                WorkflowState::Finalizing,
                before,
            ),
            _ => given_up(host, before),
        },
        WorkflowState::Finalizing => match event {
            AcmeEvent::Tick { .. } => before,
            AcmeEvent::CertificateIssued(certificate) => Snapshot {
                state: WorkflowState::Idle,
                orders: before.orders.remove(host),
                certificates: before.certificates.insert(host, certificate@),
            },
            _ => given_up(host, before),
        },
    }
}

/// What the caller is to do after `event` took the workflow from `before` to
/// `after`: nothing where the state did not change, except that a status
/// still pending is polled again, and else what the new state waits for.
pub open spec fn action_spec(
    before: WorkflowState,
    after: WorkflowState,
    event: AcmeEvent,
) -> AcmeAction {
    if before == after {
        if before == WorkflowState::Validating && event == AcmeEvent::StatusPolled(
            OrderStatus::Pending,
        ) {
            AcmeAction::PollStatus
        } else {
            AcmeAction::Rest
        }
    } else {
        match after {
            WorkflowState::Idle => AcmeAction::Rest,
            WorkflowState::Requesting => AcmeAction::RequestOrder,
            WorkflowState::Authorizing => AcmeAction::RequestChallenge,
            WorkflowState::Validating => AcmeAction::NotifyReady,
            WorkflowState::Finalizing => AcmeAction::Finalize,
        }
    }
}

/// The workflow of one host.
pub struct AcmeWorkflow {
    host: String,
    state: WorkflowState,
}

impl AcmeWorkflow {
    /// An idle workflow for `host`.
    pub fn new(host: String) -> (workflow: AcmeWorkflow)
        ensures
            workflow.host() == host@,
            workflow.state() == WorkflowState::Idle,
    {
        AcmeWorkflow { host, state: WorkflowState::Idle }
    }

    /// The host that the workflow is for.
    pub closed spec fn host(&self) -> Seq<char> {
        self.host@
    }

    /// Where the workflow stands.
    pub closed spec fn state(&self) -> WorkflowState {
        self.state
    }

    /// The host that the workflow is for.
    pub fn host_name(&self) -> (host: &str)
        ensures
            host@ == self.host(),
    {
        self.host.as_str()
    }

    /// Where the workflow stands.
    pub fn current_state(&self) -> (state: WorkflowState)
        ensures
            state == self.state(),
    {
        self.state
    }

    fn give_up(&mut self, tracker: &mut Storage)
        ensures
            final(self).host() == old(self).host(),
            final(self).state() == WorkflowState::Idle,
            final(tracker)@.orders == old(tracker)@.orders.remove(old(self).host()),
            final(tracker)@.certificates == old(tracker)@.certificates,
    {
        tracker.remove_order(self.host.as_str());
        self.state = WorkflowState::Idle;
    }

    /// Takes one event and says what to do next. The pending orders of
    /// `tracker` and the records of `certificates` change as `step_spec`
    /// says, and so for this workflow's host only.
    pub fn step(
        &mut self,
        event: AcmeEvent,
        tracker: &mut Storage,
        certificates: &mut CertificateStore,
    ) -> (action: AcmeAction)
        ensures
            final(self).host() == old(self).host(),
            final(tracker)@.certificates == old(tracker)@.certificates,
            (Snapshot {
                state: final(self).state(),
                orders: final(tracker)@.orders,
                certificates: final(certificates)@,
            }) == step_spec(
                old(self).host(),
                Snapshot {
                    state: old(self).state(),
                    orders: old(tracker)@.orders,
                    certificates: old(certificates)@,
                },
                event,
            ),
            action == action_spec(old(self).state(), final(self).state(), event),
    {
        match self.state {
            WorkflowState::Idle => match event {
                AcmeEvent::Tick { renewal_due } => {
                    let pending: bool = tracker.has_order(self.host.as_str());
                    let covered: bool = certificates.contains(self.host.as_str());
                    if !pending && (renewal_due || !covered) {
                        self.state = WorkflowState::Requesting;
                        AcmeAction::RequestOrder
                    } else {
                        AcmeAction::Rest
                    }
                },
                _ => AcmeAction::Rest,
            },
            WorkflowState::Requesting => match event {
                AcmeEvent::Tick { .. } => AcmeAction::Rest,
                AcmeEvent::OrderCreated => {
                    self.state = WorkflowState::Authorizing;
                    AcmeAction::RequestChallenge
                },
                _ => {
                    self.give_up(tracker);
                    AcmeAction::Rest
                },
            },
            WorkflowState::Authorizing => match event {
                AcmeEvent::Tick { .. } => AcmeAction::Rest,
                AcmeEvent::ChallengeReceived { token, url, key_authorization } => {
                    tracker.add_order(self.host.clone(), token, url, key_authorization);
                    self.state = WorkflowState::Validating;
                    AcmeAction::NotifyReady
                },
                _ => {
                    self.give_up(tracker);
                    AcmeAction::Rest
                },
            },
            WorkflowState::Validating => match event {
                AcmeEvent::Tick { .. } => AcmeAction::Rest,
                AcmeEvent::StatusPolled(OrderStatus::Pending) => AcmeAction::PollStatus,
                AcmeEvent::StatusPolled(OrderStatus::Valid) => {
                    self.state = WorkflowState::Finalizing;
                    AcmeAction::Finalize
                },
                _ => {
                    self.give_up(tracker);
                    AcmeAction::Rest
                },
            },
            WorkflowState::Finalizing => match event {
                AcmeEvent::Tick { .. } => AcmeAction::Rest,
                AcmeEvent::CertificateIssued(certificate) => {
                    certificates.insert(self.host.clone(), certificate);
                    tracker.remove_order(self.host.as_str());
                    self.state = WorkflowState::Idle;
                    AcmeAction::Rest
                },
                _ => {
                    self.give_up(tracker);
                    AcmeAction::Rest
                },
            },
        }
    }
}

/// The snapshot after `events` were reported one after the other.
pub open spec fn run(host: Seq<char>, start: Snapshot, events: Seq<AcmeEvent>) -> Snapshot
    decreases events.len(),
{
    if events.len() == 0 {
        start
    } else {
        step_spec(host, run(host, start, events.drop_last()), events.last())
    }
}

/// Whether `events` take the workflow of `host` through exactly one attempt:
/// it is idle at the start, in flight after the first event and after every
/// later one but the last, and idle again at the end.
pub open spec fn one_attempt(host: Seq<char>, start: Snapshot, events: Seq<AcmeEvent>) -> bool {
    &&& start.state == WorkflowState::Idle
    &&& events.len() >= 2
    &&& forall|n: int|
        1 <= n < events.len() ==> (#[trigger] run(host, start, events.subrange(0, n))).state
            != WorkflowState::Idle
    &&& run(host, start, events).state == WorkflowState::Idle
}

/// Whether the attempt that `events` make up ends with a certificate: the
/// last event is the issued certificate, and it comes while the workflow
/// waits for it.
pub open spec fn succeeds(host: Seq<char>, start: Snapshot, events: Seq<AcmeEvent>) -> bool {
    events.len() >= 1 && events.last() is CertificateIssued && run(
        host,
        start,
        events.drop_last(),
    ).state == WorkflowState::Finalizing
}

proof fn lemma_in_flight_keeps_certificates(
    host: Seq<char>,
    start: Snapshot,
    events: Seq<AcmeEvent>,
    n: int,
)
    requires
        0 <= n <= events.len(),
        forall|k: int|
            1 <= k <= n ==> (#[trigger] run(host, start, events.subrange(0, k))).state
                != WorkflowState::Idle,
    ensures
        run(host, start, events.subrange(0, n)).certificates == start.certificates,
    decreases n,
{
    if n > 0 {
        lemma_in_flight_keeps_certificates(host, start, events, n - 1);
        assert(events.subrange(0, n).drop_last() =~= events.subrange(0, n - 1));
    }
}

/// One attempt, however it goes, ends without a pending order for the host.
/// Where it succeeds, the certificate store holds the issued certificate for
/// the host and is otherwise as it was at the start; where it fails, the
/// certificate store is as it was at the start.
pub proof fn lemma_attempt_outcome(host: Seq<char>, start: Snapshot, events: Seq<AcmeEvent>)
    requires
        one_attempt(host, start, events),
    ensures
        !run(host, start, events).orders.contains_key(host),
        succeeds(host, start, events) ==> run(host, start, events).certificates
            == start.certificates.insert(host, events.last()->CertificateIssued_0@),
        !succeeds(host, start, events) ==> run(host, start, events).certificates
            == start.certificates,
{
    let n = events.len() - 1;
    assert(events.drop_last() =~= events.subrange(0, n));
    assert forall|k: int| 1 <= k <= n implies (#[trigger] run(
        host,
        start,
        events.subrange(0, k),
    )).state != WorkflowState::Idle by {}
    lemma_in_flight_keeps_certificates(host, start, events, n);
}

/// A step of one host's workflow leaves the pending orders and the
/// certificates of every other host as they were.
pub proof fn lemma_step_keeps_other_hosts(
    host: Seq<char>,
    before: Snapshot,
    event: AcmeEvent,
    other: Seq<char>,
)
    requires
        other != host,
    ensures
        step_spec(host, before, event).orders.contains_key(other) == before.orders.contains_key(
            other,
        ),
        step_spec(host, before, event).orders[other] == before.orders[other],
        step_spec(host, before, event).certificates.contains_key(other)
            == before.certificates.contains_key(other),
        step_spec(host, before, event).certificates[other] == before.certificates[other],
{
}

/// No step starts an attempt for a host that has a pending order.
pub proof fn lemma_no_start_while_pending(host: Seq<char>, before: Snapshot, event: AcmeEvent)
    requires
        before.state == WorkflowState::Idle,
        before.orders.contains_key(host),
    ensures
        step_spec(host, before, event) == before,
{
}

} // verus!
