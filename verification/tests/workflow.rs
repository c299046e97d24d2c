use zero2prod::domain::{NewSubscriber, ValidationError};
use zero2prod::email_client::DispatchError;
use zero2prod::subscription::{
    build_confirmation_email, confirmation_link, on_dispatch_outcome, on_persist_outcome,
    start_subscription, subscription_record, FormData, PersistOutcome, WorkflowError,
    WorkflowResult, WorkflowState, PENDING_CONFIRMATION,
};

fn valid_form() -> FormData {
    FormData {
        name: "le guin".to_owned(),
        email: "ursula_le_guin@gmail.com".to_owned(),
    }
}

#[test]
fn try_from_accepts_a_valid_form() {
    let subscriber = NewSubscriber::try_from(&valid_form()).unwrap();
    assert_eq!(subscriber.name.as_ref(), "le guin");
    assert_eq!(subscriber.email.as_ref(), "ursula_le_guin@gmail.com");
}

#[test]
fn try_from_reports_the_name_error_first() {
    let form = FormData {
        name: "".to_owned(),
        email: "not-an-email".to_owned(),
    };
    assert!(matches!(
        NewSubscriber::try_from(&form),
        Err(ValidationError::Empty)
    ));
}

#[test]
fn a_full_run_with_cooperative_collaborators_succeeds() {
    let state = start_subscription(&valid_form());
    let state = match state {
        WorkflowState::AwaitingPersist(_) => {
            on_persist_outcome(state, PersistOutcome::Persisted)
        }
        other => panic!("expected AwaitingPersist, got {:?}", other),
    };
    let state = match state {
        WorkflowState::AwaitingDispatch(_) => on_dispatch_outcome(state, Ok(())),
        other => panic!("expected AwaitingDispatch, got {:?}", other),
    };
    assert!(matches!(
        state,
        WorkflowState::Done(WorkflowResult::Succeeded)
    ));
}

#[test]
fn an_empty_name_is_rejected_before_any_collaborator_is_reached() {
    let form = FormData {
        name: "".to_owned(),
        email: "ursula_le_guin@gmail.com".to_owned(),
    };
    // The run is terminal at once: no persist or dispatch step exists to take.
    let state = start_subscription(&form);
    assert!(matches!(
        state,
        WorkflowState::Done(WorkflowResult::Rejected(ValidationError::Empty))
    ));
}

#[test]
fn a_provider_rejection_after_a_successful_persist_fails_the_workflow() {
    let state = start_subscription(&valid_form());
    assert!(matches!(state, WorkflowState::AwaitingPersist(_)));
    let state = on_persist_outcome(state, PersistOutcome::Persisted);
    assert!(matches!(state, WorkflowState::AwaitingDispatch(_)));
    let state = on_dispatch_outcome(state, Err(DispatchError::ProviderRejected(500)));
    assert!(matches!(
        state,
        WorkflowState::Done(WorkflowResult::Failed(WorkflowError::Dispatch(
            DispatchError::ProviderRejected(500)
        )))
    ));
}

#[test]
fn a_store_failure_is_terminal_and_skips_dispatch() {
    let state = start_subscription(&valid_form());
    let state = on_persist_outcome(state, PersistOutcome::StoreFailed);
    assert!(matches!(
        state,
        WorkflowState::Done(WorkflowResult::Failed(WorkflowError::Persistence))
    ));
}

#[test]
fn the_record_carries_the_identity_and_the_pending_status() {
    let subscriber = NewSubscriber::try_from(&valid_form()).unwrap();
    let record = subscription_record(
        &subscriber,
        "a-unique-id".to_owned(),
        "2026-01-01T00:00:00Z".to_owned(),
    );
    assert_eq!(record.id, "a-unique-id");
    assert_eq!(record.email, "ursula_le_guin@gmail.com");
    assert_eq!(record.name, "le guin");
    assert_eq!(record.subscribed_at, "2026-01-01T00:00:00Z");
    assert_eq!(record.status, "pending_confirmation");
    assert_eq!(record.status, PENDING_CONFIRMATION);
}

#[test]
fn the_confirmation_link_extends_the_base_url() {
    assert_eq!(
        confirmation_link("http://localhost:8000"),
        "http://localhost:8000/subscriptions/confirm?subscription_token=mytoken"
    );
}

#[test]
fn the_confirmation_email_embeds_the_link_in_both_bodies() {
    let subscriber = NewSubscriber::try_from(&valid_form()).unwrap();
    let message = build_confirmation_email(subscriber.email, "http://base");
    let link = "http://base/subscriptions/confirm?subscription_token=mytoken";
    assert_eq!(message.to.as_ref(), "ursula_le_guin@gmail.com");
    assert_eq!(message.subject, "Welcome!");
    assert_eq!(
        message.html_body,
        format!(
            "Welcome to our newsletter!<br />\n\t\tClick <a href=\"{link}\">here</a> to confirm your subscriptions"
        )
    );
    assert_eq!(
        message.text_body,
        format!("Welcome to our newsletter!\n\t\tVisit {link} to confirm your subscriptions")
    );
}
