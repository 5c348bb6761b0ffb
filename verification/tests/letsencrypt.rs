use proksi::services::letsencrypt::{
    challenge_response, is_challenge_path, AcmeAction, AcmeEvent, AcmeWorkflow, OrderStatus,
    WorkflowState,
};
use proksi::storage::KeyAuthorization;
use proksi::stores::certificates::{Certificate, CertificateStore};
use proksi::Storage;

fn challenge(token: &str, thumbprint: &str) -> AcmeEvent {
    AcmeEvent::ChallengeReceived {
        token: token.to_string(),
        url: format!("https://acme.test/chall/{}", token),
        key_authorization: KeyAuthorization::new(thumbprint.to_string()),
    }
}

fn validating(host: &str, tracker: &mut Storage, certs: &mut CertificateStore) -> AcmeWorkflow {
    let mut workflow = AcmeWorkflow::new(host.to_string());
    assert_eq!(
        workflow.step(AcmeEvent::Tick { renewal_due: false }, tracker, certs),
        AcmeAction::RequestOrder
    );
    assert_eq!(workflow.step(AcmeEvent::OrderCreated, tracker, certs), AcmeAction::RequestChallenge);
    assert_eq!(workflow.step(challenge("tok123", "abc"), tracker, certs), AcmeAction::NotifyReady);
    workflow
}

#[test]
fn challenge_responder_serves_token_dot_thumbprint() {
    let mut storage = Storage::new();
    storage.add_order(
        "example.com".to_string(),
        "tok123".to_string(),
        "https://acme.test/chall/1".to_string(),
        KeyAuthorization::new("abc".to_string()),
    );
    assert_eq!(
        challenge_response(&storage, "example.com", "/.well-known/acme-challenge/tok123"),
        Some("tok123.abc".to_string())
    );
}

#[test]
fn challenge_responder_is_silent_for_other_requests() {
    let mut storage = Storage::new();
    storage.add_order(
        "example.com".to_string(),
        "tok123".to_string(),
        "https://acme.test/chall/1".to_string(),
        KeyAuthorization::new("abc".to_string()),
    );
    assert_eq!(challenge_response(&storage, "example.com", "/.well-known/acme-challenge/tok124"), None);
    assert_eq!(challenge_response(&storage, "example.com", "/.well-known/acme-challenge/"), None);
    assert_eq!(challenge_response(&storage, "example.com", "/.well-known/acme-challenge/tok123/"), None);
    assert_eq!(challenge_response(&storage, "example.com", "/tok123"), None);
    assert_eq!(challenge_response(&storage, "example.com", "/"), None);
    assert_eq!(challenge_response(&storage, "other.com", "/.well-known/acme-challenge/tok123"), None);
}

#[test]
fn challenge_responder_stops_when_the_order_is_gone() {
    let mut storage = Storage::new();
    assert_eq!(challenge_response(&storage, "example.com", "/.well-known/acme-challenge/tok123"), None);
    storage.add_order(
        "example.com".to_string(),
        "tok123".to_string(),
        "u".to_string(),
        KeyAuthorization::new("abc".to_string()),
    );
    storage.remove_order("example.com");
    assert_eq!(challenge_response(&storage, "example.com", "/.well-known/acme-challenge/tok123"), None);
}

#[test]
fn new_workflow_is_idle() {
    let workflow = AcmeWorkflow::new("example.com".to_string());
    assert_eq!(workflow.current_state(), WorkflowState::Idle);
    assert_eq!(workflow.host_name(), "example.com");
}

#[test]
fn successful_workflow_clears_the_order_and_stores_the_certificate() {
    let mut tracker = Storage::new();
    let mut certs = CertificateStore::new();
    let mut workflow = AcmeWorkflow::new("example.com".to_string());

    assert_eq!(
        workflow.step(AcmeEvent::Tick { renewal_due: false }, &mut tracker, &mut certs),
        AcmeAction::RequestOrder
    );
    assert_eq!(workflow.current_state(), WorkflowState::Requesting);
    assert!(!tracker.has_order("example.com"));

    assert_eq!(
        workflow.step(AcmeEvent::OrderCreated, &mut tracker, &mut certs),
        AcmeAction::RequestChallenge
    );
    assert_eq!(workflow.current_state(), WorkflowState::Authorizing);
    assert!(!tracker.has_order("example.com"));

    assert_eq!(
        workflow.step(challenge("tok123", "abc"), &mut tracker, &mut certs),
        AcmeAction::NotifyReady
    );
    assert_eq!(workflow.current_state(), WorkflowState::Validating);
    let order = tracker.get_order("example.com").expect("the challenge was registered");
    assert_eq!(order.0, "tok123");
    assert_eq!(order.1, "https://acme.test/chall/tok123");
    assert_eq!(order.2.thumbprint(), "abc");
    assert_eq!(
        challenge_response(&tracker, "example.com", "/.well-known/acme-challenge/tok123"),
        Some("tok123.abc".to_string())
    );

    assert_eq!(
        workflow.step(AcmeEvent::StatusPolled(OrderStatus::Pending), &mut tracker, &mut certs),
        AcmeAction::PollStatus
    );
    assert_eq!(workflow.current_state(), WorkflowState::Validating);
    assert!(tracker.has_order("example.com"));

    assert_eq!(
        workflow.step(AcmeEvent::StatusPolled(OrderStatus::Valid), &mut tracker, &mut certs),
        AcmeAction::Finalize
    );
    assert_eq!(workflow.current_state(), WorkflowState::Finalizing);
    assert!(tracker.has_order("example.com"));
    assert!(certs.get("example.com").is_none());

    let issued = Certificate::new(vec![1, 2, 3], vec![4, 5, 6, 7]);
    assert_eq!(
        workflow.step(AcmeEvent::CertificateIssued(issued.clone()), &mut tracker, &mut certs),
        AcmeAction::Rest
    );
    assert_eq!(workflow.current_state(), WorkflowState::Idle);
    assert!(!tracker.has_order("example.com"));
    assert!(tracker.get_order("example.com").is_none());
    assert_eq!(certs.get("example.com"), Some(issued));
    assert_eq!(challenge_response(&tracker, "example.com", "/.well-known/acme-challenge/tok123"), None);
}

#[test]
fn failed_validation_clears_the_order_and_keeps_the_certificates() {
    for status in [OrderStatus::Invalid, OrderStatus::Expired] {
        let mut tracker = Storage::new();
        let mut certs = CertificateStore::new();
        let previous = Certificate::new(vec![9], vec![9, 9]);
        certs.insert("other.com".to_string(), previous.clone());
        let mut workflow = validating("example.com", &mut tracker, &mut certs);
        assert!(tracker.has_order("example.com"));
        assert_eq!(
            workflow.step(AcmeEvent::StatusPolled(status), &mut tracker, &mut certs),
            AcmeAction::Rest
        );
        assert_eq!(workflow.current_state(), WorkflowState::Idle);
        assert!(!tracker.has_order("example.com"));
        assert!(certs.get("example.com").is_none());
        assert_eq!(certs.get("other.com"), Some(previous));
    }
}

#[test]
fn failed_renewal_keeps_the_previous_certificate() {
    let mut tracker = Storage::new();
    let mut certs = CertificateStore::new();
    let previous = Certificate::new(vec![1], vec![2]);
    certs.insert("example.com".to_string(), previous.clone());
    let mut workflow = AcmeWorkflow::new("example.com".to_string());
    assert_eq!(
        workflow.step(AcmeEvent::Tick { renewal_due: true }, &mut tracker, &mut certs),
        AcmeAction::RequestOrder
    );
    workflow.step(AcmeEvent::OrderCreated, &mut tracker, &mut certs);
    workflow.step(challenge("t", "k"), &mut tracker, &mut certs);
    workflow.step(AcmeEvent::StatusPolled(OrderStatus::Valid), &mut tracker, &mut certs);
    assert_eq!(workflow.step(AcmeEvent::Failed, &mut tracker, &mut certs), AcmeAction::Rest);
    assert_eq!(workflow.current_state(), WorkflowState::Idle);
    assert!(!tracker.has_order("example.com"));
    assert_eq!(certs.get("example.com"), Some(previous));
}

#[test]
fn successful_renewal_replaces_the_certificate() {
    let mut tracker = Storage::new();
    let mut certs = CertificateStore::new();
    certs.insert("example.com".to_string(), Certificate::new(vec![1], vec![2]));
    let mut workflow = AcmeWorkflow::new("example.com".to_string());
    workflow.step(AcmeEvent::Tick { renewal_due: true }, &mut tracker, &mut certs);
    workflow.step(AcmeEvent::OrderCreated, &mut tracker, &mut certs);
    workflow.step(challenge("t", "k"), &mut tracker, &mut certs);
    workflow.step(AcmeEvent::StatusPolled(OrderStatus::Valid), &mut tracker, &mut certs);
    let renewed = Certificate::new(vec![3], vec![4]);
    workflow.step(AcmeEvent::CertificateIssued(renewed.clone()), &mut tracker, &mut certs);
    assert_eq!(certs.get("example.com"), Some(renewed));
    assert!(!tracker.has_order("example.com"));
}

#[test]
fn network_failure_gives_the_attempt_up_in_every_state() {
    let mut tracker = Storage::new();
    let mut certs = CertificateStore::new();

    let mut requesting = AcmeWorkflow::new("example.com".to_string());
    requesting.step(AcmeEvent::Tick { renewal_due: false }, &mut tracker, &mut certs);
    assert_eq!(requesting.step(AcmeEvent::Failed, &mut tracker, &mut certs), AcmeAction::Rest);
    assert_eq!(requesting.current_state(), WorkflowState::Idle);

    let mut authorizing = AcmeWorkflow::new("example.com".to_string());
    authorizing.step(AcmeEvent::Tick { renewal_due: false }, &mut tracker, &mut certs);
    authorizing.step(AcmeEvent::OrderCreated, &mut tracker, &mut certs);
    assert_eq!(authorizing.step(AcmeEvent::Failed, &mut tracker, &mut certs), AcmeAction::Rest);
    assert_eq!(authorizing.current_state(), WorkflowState::Idle);

    let mut polling = validating("example.com", &mut tracker, &mut certs);
    assert!(tracker.has_order("example.com"));
    assert_eq!(polling.step(AcmeEvent::Failed, &mut tracker, &mut certs), AcmeAction::Rest);
    assert_eq!(polling.current_state(), WorkflowState::Idle);
    assert!(!tracker.has_order("example.com"));
    assert!(certs.get("example.com").is_none());
}

#[test]
fn idle_workflow_can_start_again_after_a_failure() {
    let mut tracker = Storage::new();
    let mut certs = CertificateStore::new();
    let mut workflow = validating("example.com", &mut tracker, &mut certs);
    workflow.step(AcmeEvent::StatusPolled(OrderStatus::Invalid), &mut tracker, &mut certs);
    assert_eq!(
        workflow.step(AcmeEvent::Tick { renewal_due: false }, &mut tracker, &mut certs),
        AcmeAction::RequestOrder
    );
    assert_eq!(workflow.current_state(), WorkflowState::Requesting);
}

#[test]
fn tick_does_not_start_while_an_order_is_pending() {
    let mut tracker = Storage::new();
    let mut certs = CertificateStore::new();
    tracker.add_order(
        "example.com".to_string(),
        "tok".to_string(),
        "u".to_string(),
        KeyAuthorization::new("k".to_string()),
    );
    let mut workflow = AcmeWorkflow::new("example.com".to_string());
    assert_eq!(
        workflow.step(AcmeEvent::Tick { renewal_due: true }, &mut tracker, &mut certs),
        AcmeAction::Rest
    );
    assert_eq!(workflow.current_state(), WorkflowState::Idle);
    assert!(tracker.has_order("example.com"));
}

#[test]
fn tick_starts_only_where_a_certificate_is_missing_or_due() {
    let mut tracker = Storage::new();
    let mut certs = CertificateStore::new();
    certs.insert("covered.com".to_string(), Certificate::new(vec![1], vec![2]));

    let mut covered = AcmeWorkflow::new("covered.com".to_string());
    assert_eq!(
        covered.step(AcmeEvent::Tick { renewal_due: false }, &mut tracker, &mut certs),
        AcmeAction::Rest
    );
    assert_eq!(covered.current_state(), WorkflowState::Idle);
    assert_eq!(
        covered.step(AcmeEvent::Tick { renewal_due: true }, &mut tracker, &mut certs),
        AcmeAction::RequestOrder
    );

    let mut bare = AcmeWorkflow::new("bare.com".to_string());
    assert_eq!(
        bare.step(AcmeEvent::Tick { renewal_due: false }, &mut tracker, &mut certs),
        AcmeAction::RequestOrder
    );
}

#[test]
fn tick_is_ignored_while_an_attempt_is_in_flight() {
    let mut tracker = Storage::new();
    let mut certs = CertificateStore::new();
    let mut workflow = validating("example.com", &mut tracker, &mut certs);
    assert_eq!(
        workflow.step(AcmeEvent::Tick { renewal_due: true }, &mut tracker, &mut certs),
        AcmeAction::Rest
    );
    assert_eq!(workflow.current_state(), WorkflowState::Validating);
    assert!(tracker.has_order("example.com"));
}

#[test]
fn idle_workflow_ignores_stray_events() {
    let mut tracker = Storage::new();
    let mut certs = CertificateStore::new();
    tracker.add_order(
        "example.com".to_string(),
        "tok".to_string(),
        "u".to_string(),
        KeyAuthorization::new("k".to_string()),
    );
    let mut workflow = AcmeWorkflow::new("example.com".to_string());
    for event in [
        AcmeEvent::OrderCreated,
        challenge("x", "y"),
        AcmeEvent::StatusPolled(OrderStatus::Valid),
        AcmeEvent::CertificateIssued(Certificate::new(vec![1], vec![2])),
        AcmeEvent::Failed,
    ] {
        assert_eq!(workflow.step(event, &mut tracker, &mut certs), AcmeAction::Rest);
        assert_eq!(workflow.current_state(), WorkflowState::Idle);
    }
    assert_eq!(tracker.get_order("example.com").unwrap().0, "tok");
    assert!(certs.get("example.com").is_none());
}

#[test]
fn out_of_turn_event_gives_the_attempt_up() {
    let mut tracker = Storage::new();
    let mut certs = CertificateStore::new();
    let mut workflow = validating("example.com", &mut tracker, &mut certs);
    let early = AcmeEvent::CertificateIssued(Certificate::new(vec![1], vec![2]));
    assert_eq!(workflow.step(early, &mut tracker, &mut certs), AcmeAction::Rest);
    assert_eq!(workflow.current_state(), WorkflowState::Idle);
    assert!(!tracker.has_order("example.com"));
    assert!(certs.get("example.com").is_none());
}

#[test]
fn workflows_of_different_hosts_do_not_disturb_each_other() {
    let mut tracker = Storage::new();
    let mut certs = CertificateStore::new();
    let mut a = validating("a.example", &mut tracker, &mut certs);
    let mut b = validating("b.example", &mut tracker, &mut certs);
    assert_eq!(a.step(AcmeEvent::Failed, &mut tracker, &mut certs), AcmeAction::Rest);
    assert!(!tracker.has_order("a.example"));
    assert!(tracker.has_order("b.example"));
    assert_eq!(b.current_state(), WorkflowState::Validating);
    b.step(AcmeEvent::StatusPolled(OrderStatus::Valid), &mut tracker, &mut certs);
    let issued = Certificate::new(vec![7], vec![8]);
    b.step(AcmeEvent::CertificateIssued(issued.clone()), &mut tracker, &mut certs);
    assert_eq!(certs.get("b.example"), Some(issued));
    assert!(certs.get("a.example").is_none());
}

#[test]
fn challenge_paths_lie_under_the_well_known_directory() {
    assert!(is_challenge_path("/.well-known/acme-challenge/tok123"));
    assert!(is_challenge_path("/.well-known/acme-challenge/"));
    assert!(is_challenge_path("/.well-known/acme-challenge/a/b"));
    assert!(!is_challenge_path("/.well-known/acme-challenge"));
    assert!(!is_challenge_path("/.well-known/acme-challengf/tok123"));
    assert!(!is_challenge_path("/well-known/acme-challenge/tok123"));
    assert!(!is_challenge_path("/index.html"));
    assert!(!is_challenge_path("/"));
    assert!(!is_challenge_path(""));
    assert!(!is_challenge_path("x/.well-known/acme-challenge/tok123"));
}
