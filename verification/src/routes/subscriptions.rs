//! The subscription pipeline's decisions. A request's body either fails
//! extraction — then it is rejected before any handler logic runs and
//! nothing reaches the store — or yields a record to persist, stamped with
//! a fresh id and the current instant. The outcome of the persistence
//! attempt is mapped to a status in one place, and the store never sees
//! more than that one appended record per request.

use vstd::prelude::*;
use vstd::string::StringExecFns;

use crate::fresh::{fresh_uuid, now_utc_micros};
use crate::response::Reply;
use crate::routes::form::{parse_form, parse_form_data, FormData, FormError};

verus! {

/// A subscriber row as it is handed to the store: a fresh id, the two
/// extracted fields, and the insertion instant.
pub struct NewSubscriber {
    pub id: String,
    pub email: String,
    pub name: String,
    pub subscribed_at_micros: i64,
}

/// The three ways a subscription request can end, as a closed set.
#[derive(Clone, Copy, Debug, PartialEq, Eq, Structural)]
pub enum SubscriptionOutcome {
    /// Extraction failed; nothing else ran.
    Rejected,
    /// The record reached the store.
    Persisted,
    /// The store refused or could not be reached.
    Failed,
}

/// The one decision table from outcome to HTTP status.
pub open spec fn outcome_status(o: SubscriptionOutcome) -> u16 {
    match o {
        SubscriptionOutcome::Rejected => 400,
        SubscriptionOutcome::Persisted => 200,
        SubscriptionOutcome::Failed => 500,
    }
}

/// The reply for a decided outcome: its status and an empty body — no
/// internal error detail ever reaches the client.
pub fn response_for_outcome(o: SubscriptionOutcome) -> (r: Reply)
    ensures
        r.status == outcome_status(o),
        r.body@.len() == 0,
{
    match o {
        SubscriptionOutcome::Rejected => Reply::empty(400),
        SubscriptionOutcome::Persisted => Reply::empty(200),
        SubscriptionOutcome::Failed => Reply::empty(500),
    }
}

/// What the handler decides once extraction has been tried: answer 400
/// now, or persist this record.
pub enum SubscribeAction {
    Reject(FormError),
    Persist { request_id: String, record: NewSubscriber },
}

/// Decides a subscription request from its raw body. A body that fails
/// extraction is rejected, with the failure, before anything else happens.
/// A body that parses yields the record to persist — the extracted email
/// and name under a fresh id, stamped with the current instant — together
/// with a fresh correlation id for the request's log span.
pub fn subscribe(body: &[u8]) -> (r: SubscribeAction)
    ensures
        r matches SubscribeAction::Reject(e) ==> parse_form(body@) == Err::<
            (Seq<char>, Seq<char>),
            FormError,
        >(e),
        r matches SubscribeAction::Persist { request_id, record } ==> (parse_form(body@)
            == Ok::<(Seq<char>, Seq<char>), FormError>((record.email@, record.name@))
            && request_id@.len() == 36 && record.id@.len() == 36),
{
    match parse_form_data(body) {
        Err(e) => SubscribeAction::Reject(e),
        Ok(f) => {
            let request_id = fresh_uuid();
            let id = fresh_uuid();
            let at = now_utc_micros();
            SubscribeAction::Persist {
                request_id,
                record: NewSubscriber {
                    id,
                    email: f.email,
                    name: f.name,
                    subscribed_at_micros: at,
                },
            }
        },
    }
}

/// The one parameterized statement the persistence gateway executes; the
/// four values are bound as parameters, never concatenated into the text.
pub fn insert_subscriber_statement() -> (s: String)
    ensures
        s@ == "INSERT INTO subscriptions(id, email, name, subscribed_at) VALUES ($1, $2, $3, $4)"@,
{
    String::from_str(
        "INSERT INTO subscriptions(id, email, name, subscribed_at) VALUES ($1, $2, $3, $4)",
    )
}

/// The stages one subscription request passes through.
#[derive(Clone, Copy, Debug, PartialEq, Eq, Structural)]
pub enum SubscriptionState {
    Received,
    Rejected,
    Extracted,
    Persisting,
    Succeeded,
    Failed,
}

/// The events that drive one subscription request forward.
#[derive(Clone, Copy, Debug, PartialEq, Eq, Structural)]
pub enum SubscriptionEvent {
    ExtractionFailed,
    ExtractionSucceeded,
    PersistenceStarted,
    PersistenceFailed,
    PersistenceSucceeded,
}

/// The transition relation of a request: extraction either rejects the
/// request outright or admits it, only an admitted request starts a
/// persistence attempt, and the attempt's result ends the request. The
/// three terminal stages are answered through `outcome_status`: `Rejected`
/// as 400, `Succeeded` as 200, `Failed` as 500. Every other pairing of
/// stage and event is impossible.
pub open spec fn next_state(s: SubscriptionState, e: SubscriptionEvent) -> Option<
    SubscriptionState,
> {
    match (s, e) {
        (SubscriptionState::Received, SubscriptionEvent::ExtractionFailed) => Some(
            SubscriptionState::Rejected,
        ),
        (SubscriptionState::Received, SubscriptionEvent::ExtractionSucceeded) => Some(
            SubscriptionState::Extracted,
        ),
        (SubscriptionState::Extracted, SubscriptionEvent::PersistenceStarted) => Some(
            SubscriptionState::Persisting,
        ),
        (SubscriptionState::Persisting, SubscriptionEvent::PersistenceSucceeded) => Some(
            SubscriptionState::Succeeded,
        ),
        (SubscriptionState::Persisting, SubscriptionEvent::PersistenceFailed) => Some(
            SubscriptionState::Failed,
        ),
        _ => None,
    }
}

/// The stage a request is in after the given events, starting from
/// `Received`; nothing, if some event was impossible where it happened.
pub open spec fn state_after(events: Seq<SubscriptionEvent>) -> Option<SubscriptionState>
    decreases events.len(),
{
    if events.len() == 0 {
        Some(SubscriptionState::Received)
    } else {
        match state_after(events.drop_last()) {
            None => None,
            Some(s) => next_state(s, events.last()),
        }
    }
}

/// A request whose extraction failed goes nowhere but `Rejected`: every
/// run of the machine that stands anywhere else — `Extracted` and beyond
/// included — never saw extraction fail. The 400-versus-persist decision
/// is therefore made strictly before any persistence stage is entered.
pub proof fn lemma_no_stage_follows_rejection(events: Seq<SubscriptionEvent>)
    requires
        state_after(events) is Some,
        state_after(events) != Some(SubscriptionState::Rejected),
    ensures
        forall|k: int|
            0 <= k < events.len() ==> events[k] != SubscriptionEvent::ExtractionFailed,
    decreases events.len(),
{
    if events.len() > 0 {
        let prefix = events.drop_last();
        lemma_no_stage_follows_rejection(prefix);
        assert(forall|k: int| 0 <= k < prefix.len() ==> events[k] == prefix[k]);
    }
}

/// What handling one request with the given body does to the store, seen
/// as the sequence of persisted rows: a body that fails extraction leaves
/// it untouched, one that parses appends exactly the one new record.
pub open spec fn store_after_request(
    store: Seq<NewSubscriber>,
    body: Seq<u8>,
    record: NewSubscriber,
) -> Seq<NewSubscriber> {
    if parse_form(body) is Err {
        store
    } else {
        store.push(record)
    }
}

/// The status a request is answered with, given how far it got: 400 on
/// extraction failure, else 200 or 500 with the persistence attempt.
pub open spec fn request_status(body: Seq<u8>, persist_ok: bool) -> u16 {
    if parse_form(body) is Err {
        400
    } else if persist_ok {
        200
    } else {
        500
    }
}

/// A valid form body whose persistence succeeds is answered 200, and
/// exactly one new row — carrying the submitted email and name — is
/// appended to the store, every prior row staying as it was.
pub proof fn lemma_valid_form_persists(
    store: Seq<NewSubscriber>,
    body: Seq<u8>,
    record: NewSubscriber,
    email: Seq<char>,
    name: Seq<char>,
)
    requires
        parse_form(body) == Ok::<(Seq<char>, Seq<char>), FormError>((email, name)),
        record.email@ == email,
        record.name@ == name,
    ensures
        request_status(body, true) == 200,
        store_after_request(store, body, record) == store.push(record),
        store_after_request(store, body, record).len() == store.len() + 1,
        store_after_request(store, body, record)[store.len() as int] == record,
        forall|j: int|
            0 <= j < store.len() ==> store_after_request(store, body, record)[j] == store[j],
{
}

/// A body that fails extraction is answered 400 — whatever a persistence
/// attempt would have returned — and the store is unchanged: the
/// persistence layer is never reached for that request.
pub proof fn lemma_rejected_body(
    store: Seq<NewSubscriber>,
    body: Seq<u8>,
    record: NewSubscriber,
    persist_ok: bool,
)
    requires
        parse_form(body) is Err,
    ensures
        request_status(body, persist_ok) == 400,
        store_after_request(store, body, record) == store,
        store_after_request(store, body, record).len() == store.len(),
{
}

/// Submitting the same valid body twice persists two rows, not one: the
/// ids of the two records differ, so the rows are distinct, and the store
/// grows by exactly two — no deduplication happens at this layer.
pub proof fn lemma_resubmission_appends_two(
    store: Seq<NewSubscriber>,
    body: Seq<u8>,
    first: NewSubscriber,
    second: NewSubscriber,
)
    requires
        parse_form(body) is Ok,
        first.id@ != second.id@,
    ensures
        store_after_request(store_after_request(store, body, first), body, second).len()
            == store.len() + 2,
        store_after_request(store_after_request(store, body, first), body, second)[store.len() as int]
            == first,
        store_after_request(store_after_request(store, body, first), body, second)[store.len()
            as int + 1] == second,
        first != second,
{
}

} // verus!
