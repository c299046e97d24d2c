//! The subscription workflow: validate the raw form, persist the subscriber,
//! then dispatch the confirmation email. The three steps are a state machine
//! whose transitions are the functions here; the types make it impossible to
//! reach the dispatch step without a persisted subscriber, and a rejected
//! form never reaches either collaborator.

use vstd::prelude::*;
use vstd::string::StringExecFns;

use crate::domain::{
    email_valid, parse_name_spec, valid_name, NewSubscriber, SubscriberEmail, SubscriberName,
    ValidationError,
};
use crate::email_client::DispatchError;

verus! {

/// The raw subscription form, as the inbound HTTP layer hands it over.
pub struct FormData {
    pub name: String,
    pub email: String,
}

impl NewSubscriber {
    /// Validates a raw form into a subscriber identity: the name is parsed
    /// first, then the email; the first failure is returned.
    pub fn try_from(form: &FormData) -> (r: Result<NewSubscriber, ValidationError>)
        ensures
            parse_name_spec(form.name@) matches Err(e) ==> r == Err::<
                NewSubscriber,
                ValidationError,
            >(e),
            parse_name_spec(form.name@) is Ok && !email_valid(form.email@) ==> (r matches Err(e)
                && e matches ValidationError::InvalidEmail(m) && m@ == form.email@),
            parse_name_spec(form.name@) is Ok && email_valid(form.email@) ==> (r matches Ok(ns)
                && parse_name_spec(form.name@) == Ok::<Seq<char>, ValidationError>(ns.name@)
                && valid_name(ns.name@) && ns.email@ == form.email@),
    {
        let name = match SubscriberName::parse(form.name.as_str()) {
            Ok(n) => n,
            Err(e) => { return Err(e) },
        };
        let email = match SubscriberEmail::parse(form.email.as_str()) {
            Ok(e) => e,
            Err(e) => { return Err(e) },
        };
        Ok(NewSubscriber { email, name })
    }
}

/// What the persistence collaborator reported for one insert.
#[derive(Clone, Copy, Debug, PartialEq, Eq, Structural)]
pub enum PersistOutcome {
    /// The subscriber row is durably recorded.
    Persisted,
    /// The store failed; nothing may be dispatched.
    StoreFailed,
}

/// A server-fault terminal outcome of the workflow.
#[derive(Clone, Copy, Debug, PartialEq, Eq, Structural)]
pub enum WorkflowError {
    /// The persistence step failed; the store's own error is opaque here.
    Persistence,
    /// The dispatch step failed, after a successful persist.
    Dispatch(DispatchError),
}

/// A terminal outcome of one subscription request.
#[derive(Debug, PartialEq, Eq)]
pub enum WorkflowResult {
    /// Validation, persistence and dispatch all completed.
    Succeeded,
    /// The input was rejected by validation; nothing was persisted or sent.
    Rejected(ValidationError),
    /// A collaborator failed after validation passed.
    Failed(WorkflowError),
}

/// Where one subscription request stands. Only `on_persist_outcome` builds
/// `AwaitingDispatch`, and only from a reported successful persist, so a
/// dispatch can never precede its persist.
#[derive(Debug)]
pub enum WorkflowState {
    /// Validation passed; the subscriber is to be handed to the store.
    AwaitingPersist(NewSubscriber),
    /// The store succeeded; the confirmation email is to be sent.
    AwaitingDispatch(NewSubscriber),
    /// A terminal outcome was reached.
    Done(WorkflowResult),
}

/// The validate step: a failed parse is terminal (`Rejected`), a successful
/// one awaits persistence.
pub fn start_subscription(form: &FormData) -> (r: WorkflowState)
    ensures
        parse_name_spec(form.name@) matches Err(e) ==> r == WorkflowState::Done(
            WorkflowResult::Rejected(e),
        ),
        parse_name_spec(form.name@) is Ok && !email_valid(form.email@) ==> (r matches
            WorkflowState::Done(w) && w matches WorkflowResult::Rejected(e) && e matches
            ValidationError::InvalidEmail(m) && m@ == form.email@),
        parse_name_spec(form.name@) is Ok && email_valid(form.email@) ==> (r matches
            WorkflowState::AwaitingPersist(ns) && parse_name_spec(form.name@) == Ok::<
                Seq<char>,
                ValidationError,
            >(ns.name@) && valid_name(ns.name@) && ns.email@ == form.email@),
    {
        match NewSubscriber::try_from(form) {
            Ok(ns) => WorkflowState::AwaitingPersist(ns),
            Err(e) => WorkflowState::Done(WorkflowResult::Rejected(e)),
        }
    }

/// The persist step: a store failure is terminal and the email is never
/// attempted for a subscriber that was not durably recorded; a success moves
/// the same subscriber on to dispatch.
pub fn on_persist_outcome(state: WorkflowState, outcome: PersistOutcome) -> (r: WorkflowState)
    requires
        state is AwaitingPersist,
    ensures
        state matches WorkflowState::AwaitingPersist(ns) ==> (outcome == PersistOutcome::Persisted
            ==> r == WorkflowState::AwaitingDispatch(ns)),
        outcome == PersistOutcome::StoreFailed ==> r == WorkflowState::Done(
            WorkflowResult::Failed(WorkflowError::Persistence),
        ),
{
    match state {
        WorkflowState::AwaitingPersist(ns) => match outcome {
            PersistOutcome::Persisted => WorkflowState::AwaitingDispatch(ns),
            PersistOutcome::StoreFailed => WorkflowState::Done(
                WorkflowResult::Failed(WorkflowError::Persistence),
            ),
        },
        _ => state,
    }
}

/// The dispatch step: the subscriber is already recorded, so a dispatch
/// failure is terminal but leaves the row in place; a success completes the
/// workflow.
pub fn on_dispatch_outcome(state: WorkflowState, outcome: Result<(), DispatchError>) -> (r:
    WorkflowState)
    requires
        state is AwaitingDispatch,
    ensures
        outcome is Ok ==> r == WorkflowState::Done(WorkflowResult::Succeeded),
        outcome matches Err(d) ==> r == WorkflowState::Done(
            WorkflowResult::Failed(WorkflowError::Dispatch(d)),
        ),
{
    match outcome {
        Ok(_) => WorkflowState::Done(WorkflowResult::Succeeded),
        Err(d) => WorkflowState::Done(WorkflowResult::Failed(WorkflowError::Dispatch(d))),
    }
}

/// The status value recorded with every new subscriber.
pub const PENDING_CONFIRMATION: &'static str = "pending_confirmation";

/// The row handed to the persistence collaborator: the validated identity as
/// plain strings, a caller-supplied unique identifier and timestamp, and the
/// fixed pending status.
pub struct SubscriptionRecord {
    pub id: String,
    pub email: String,
    pub name: String,
    pub subscribed_at: String,
    pub status: String,
}

/// Builds the row to insert for a validated subscriber: the identity is
/// copied exactly, and the status is always `pending_confirmation`.
pub fn subscription_record(subscriber: &NewSubscriber, id: String, subscribed_at: String) -> (r:
    SubscriptionRecord)
    ensures
        r.id@ == id@,
        r.email@ == subscriber.email@,
        r.name@ == subscriber.name@,
        r.subscribed_at@ == subscribed_at@,
        r.status@ == "pending_confirmation"@,
{
    SubscriptionRecord {
        id,
        email: String::from_str(subscriber.email.as_ref()),
        name: String::from_str(subscriber.name.as_ref()),
        subscribed_at,
        status: String::from_str(PENDING_CONFIRMATION),
    }
}

/// The confirmation link embedded in both bodies: the application base URL
/// followed by the confirmation path with the placeholder token.
pub open spec fn confirmation_link_spec(base_url: Seq<char>) -> Seq<char> {
    base_url + "/subscriptions/confirm?subscription_token=mytoken"@
}

/// The HTML body of the confirmation email.
pub open spec fn confirmation_html_spec(base_url: Seq<char>) -> Seq<char> {
    "Welcome to our newsletter!<br />\n\t\tClick <a href=\""@ + confirmation_link_spec(base_url)
        + "\">here</a> to confirm your subscriptions"@
}

/// The plain-text body of the confirmation email.
pub open spec fn confirmation_text_spec(base_url: Seq<char>) -> Seq<char> {
    "Welcome to our newsletter!\n\t\tVisit "@ + confirmation_link_spec(base_url)
        + " to confirm your subscriptions"@
}

/// A confirmation message, built fresh per send; the sending client supplies
/// the `From` address.
pub struct EmailMessage {
    pub to: SubscriberEmail,
    pub subject: String,
    pub html_body: String,
    pub text_body: String,
}

/// Builds the confirmation link for the application base URL.
pub fn confirmation_link(base_url: &str) -> (r: String)
    ensures
        r@ == confirmation_link_spec(base_url@),
{
    let mut out = String::from_str(base_url);
    out.append("/subscriptions/confirm?subscription_token=mytoken");
    out
}

/// Builds the confirmation message for a recipient: the fixed subject and
/// the two bodies around the confirmation link.
pub fn build_confirmation_email(recipient: SubscriberEmail, base_url: &str) -> (r: EmailMessage)
    ensures
        r.to@ == recipient@,
        r.subject@ == "Welcome!"@,
        r.html_body@ == confirmation_html_spec(base_url@),
        r.text_body@ == confirmation_text_spec(base_url@),
{
    let link = confirmation_link(base_url);
    let mut html_body = String::from_str("Welcome to our newsletter!<br />\n\t\tClick <a href=\"");
    html_body.append(link.as_str());
    html_body.append("\">here</a> to confirm your subscriptions");
    let mut text_body = String::from_str("Welcome to our newsletter!\n\t\tVisit ");
    text_body.append(link.as_str());
    text_body.append(" to confirm your subscriptions");
    proof {
        assert(html_body@ =~= confirmation_html_spec(base_url@));
        assert(text_body@ =~= confirmation_text_spec(base_url@));
    }
    EmailMessage { to: recipient, subject: String::from_str("Welcome!"), html_body, text_body }
}

} // verus!
