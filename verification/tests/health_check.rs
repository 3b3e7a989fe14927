//! The original service-level checks, aimed at the decision pipeline: the
//! probe, and the subscription route's three outcomes.

use zero2prod::response::Reply;
use zero2prod::routes::health_check::health_check;
use zero2prod::routes::subscriptions::{
    response_for_outcome, subscribe, SubscribeAction, SubscriptionOutcome,
};

#[test]
fn health_check_works() {
    let response: Reply = health_check();
    assert!(200 <= response.status && response.status < 300);
    assert_eq!(0, response.body.len());
}

#[test]
fn subscribe_returns_200_ok_for_valid_form_data() {
    let body = "name=le%20guin&email=ursula_le_guin%40gmail.com";

    match subscribe(body.as_bytes()) {
        SubscribeAction::Persist { record, .. } => {
            let response = response_for_outcome(SubscriptionOutcome::Persisted);
            assert_eq!(200, response.status);
            assert_eq!(record.email, "ursula_le_guin@gmail.com");
            assert_eq!(record.name, "le guin");
        }
        SubscribeAction::Reject(_) => panic!("Failed to execute request."),
    }
}

#[test]
fn subscribe_returns_400_when_data_is_missing() {
    let test_cases = vec![
        ("name=le%20guin", "missing the email"),
        ("email=ursula_le_guin%40gmail.com", "missing the name"),
        ("", "missing both name and email"),
    ];

    for (invalid_body, error_msg) in test_cases {
        match subscribe(invalid_body.as_bytes()) {
            SubscribeAction::Reject(_) => {
                let response = response_for_outcome(SubscriptionOutcome::Rejected);
                assert_eq!(
                    400, response.status,
                    "The API did not fail with 400 Bad Request when the payload was {}.",
                    error_msg
                );
            }
            SubscribeAction::Persist { .. } => panic!(
                "The API did not fail with 400 Bad Request when the payload was {}.",
                error_msg
            ),
        }
    }
}

#[test]
fn subscribing_twice_persists_two_distinct_records() {
    let body = "name=le%20guin&email=ursula_le_guin%40gmail.com";

    let first = match subscribe(body.as_bytes()) {
        SubscribeAction::Persist { record, .. } => record,
        SubscribeAction::Reject(_) => panic!("Failed to execute request."),
    };
    let second = match subscribe(body.as_bytes()) {
        SubscribeAction::Persist { record, .. } => record,
        SubscribeAction::Reject(_) => panic!("Failed to execute request."),
    };

    assert_eq!(first.email, second.email);
    assert_eq!(first.name, second.name);
    assert_ne!(first.id, second.id);
    assert_eq!(36, first.id.len());
    assert_eq!(36, second.id.len());
}

#[test]
fn subscribe_failure_is_answered_500_with_empty_body() {
    let response = response_for_outcome(SubscriptionOutcome::Failed);
    assert_eq!(500, response.status);
    assert_eq!(0, response.body.len());
}

#[test]
fn rejected_and_persisted_replies_have_empty_bodies() {
    assert_eq!(0, response_for_outcome(SubscriptionOutcome::Rejected).body.len());
    assert_eq!(0, response_for_outcome(SubscriptionOutcome::Persisted).body.len());
}

#[test]
fn the_insert_statement_binds_all_four_values() {
    assert_eq!(
        "INSERT INTO subscriptions(id, email, name, subscribed_at) VALUES ($1, $2, $3, $4)",
        zero2prod::routes::subscriptions::insert_subscriber_statement()
    );
}

#[test]
fn greet_works_with_and_without_a_name() {
    let named = zero2prod::routes::greets::greet(Some("Ada"));
    assert_eq!(200, named.status);
    assert_eq!("Hello Ada", named.body);

    let anonymous = zero2prod::routes::greets::greet(None);
    assert_eq!(200, anonymous.status);
    assert_eq!("Hello World", anonymous.body);
}
