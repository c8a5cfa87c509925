use vstd::prelude::*;
use crate::outcome::ConfirmationError;
use crate::outcome::OutcomeCode;
use crate::outcome::StoreFailure;
use crate::outcome::StoreOperation;
use crate::store::InMemoryStore;
use crate::store::SubscriberStatus;
use crate::validation::is_valid_input_string;
use crate::validation::is_valid_spec;

verus! {

/// The length limit, in grapheme clusters, that a confirmation token
/// must respect to be looked up at all.
pub const TOKEN_MAX_LENGTH: usize = 25;

/// The query parameters of a confirmation request.
pub struct Parameters {
    pub subscription_token: String,
}

/// What the whole workflow decides for a token against a given store
/// state: each step short-circuits to its error, and only a pending
/// subscriber reached through a valid, known token yields success.
pub open spec fn confirm_result_spec(
    tokens: Map<Seq<char>, u128>,
    subscribers: Map<u128, SubscriberStatus>,
    token: Seq<char>,
) -> Result<(), ConfirmationError> {
    if !is_valid_spec(token, TOKEN_MAX_LENGTH as nat) {
        Err(ConfirmationError::InvalidToken)
    } else if !tokens.contains_key(token) {
        Err(ConfirmationError::UnknownToken)
    } else if !subscribers.contains_key(tokens[token]) {
        Err(ConfirmationError::UnexpectedError(StoreOperation::FetchStatus))
    } else if subscribers[tokens[token]] == SubscriberStatus::Confirmed {
        Err(ConfirmationError::AlreadyConfirmed)
    } else {
        Ok(())
    }
}

/// The workflow's outcome code for a token against a given store state.
pub open spec fn confirm_outcome_spec(
    tokens: Map<Seq<char>, u128>,
    subscribers: Map<u128, SubscriberStatus>,
    token: Seq<char>,
) -> OutcomeCode {
    match confirm_result_spec(tokens, subscribers, token) {
        Ok(()) => OutcomeCode::Success,
        Err(e) => e.spec_outcome(),
    }
}

/// The subscriber table after the workflow ran: the one reached
/// subscriber becomes confirmed on success, and nothing changes on any
/// other outcome.
pub open spec fn confirm_subscribers_after(
    tokens: Map<Seq<char>, u128>,
    subscribers: Map<u128, SubscriberStatus>,
    token: Seq<char>,
) -> Map<u128, SubscriberStatus> {
    if confirm_outcome_spec(tokens, subscribers, token) == OutcomeCode::Success {
        subscribers.insert(tokens[token], SubscriberStatus::Confirmed)
    } else {
        subscribers
    }
}

/// The first step on an incoming token: a malformed token never
/// reaches the store.
pub fn validate_token(token: &str) -> (r: Result<(), ConfirmationError>)
    ensures
        r == if is_valid_spec(token@, TOKEN_MAX_LENGTH as nat) {
            Result::<(), ConfirmationError>::Ok(())
        } else {
            Result::<(), ConfirmationError>::Err(ConfirmationError::InvalidToken)
        },
{
    if is_valid_input_string(token, TOKEN_MAX_LENGTH) {
        Ok(())
    } else {
        Err(ConfirmationError::InvalidToken)
    }
}

/// What the workflow makes of the token-table lookup: a store failure
/// is surfaced as unexpected under the failing operation's name, a
/// missing row means the token is unknown, and a row yields the
/// subscriber identifier.
pub fn resolve_token_lookup(found: Result<Option<u128>, StoreFailure>) -> (r: Result<
    u128,
    ConfirmationError,
>)
    ensures
        r == match found {
            Ok(Some(id)) => Result::<u128, ConfirmationError>::Ok(id),
            Ok(None) => Result::<u128, ConfirmationError>::Err(ConfirmationError::UnknownToken),
            Err(f) => Result::<u128, ConfirmationError>::Err(
                ConfirmationError::UnexpectedError(f.operation),
            ),
        },
{
    match found {
        Ok(Some(id)) => Ok(id),
        Ok(None) => Err(ConfirmationError::UnknownToken),
        Err(f) => Err(ConfirmationError::UnexpectedError(f.operation)),
    }
}

/// What the workflow makes of the status read: a store failure is
/// surfaced as unexpected, an already confirmed subscriber is a
/// conflict, and anything else may proceed to the update.
pub fn resolve_status_check(status: Result<SubscriberStatus, StoreFailure>) -> (r: Result<
    (),
    ConfirmationError,
>)
    ensures
        r == match status {
            Ok(SubscriberStatus::Confirmed) => Result::<(), ConfirmationError>::Err(
                ConfirmationError::AlreadyConfirmed,
            ),
            Ok(SubscriberStatus::PendingConfirmation) => Result::<(), ConfirmationError>::Ok(()),
            Err(f) => Result::<(), ConfirmationError>::Err(
                ConfirmationError::UnexpectedError(f.operation),
            ),
        },
{
    match status {
        Ok(SubscriberStatus::Confirmed) => Err(ConfirmationError::AlreadyConfirmed),
        Ok(SubscriberStatus::PendingConfirmation) => Ok(()),
        Err(f) => Err(ConfirmationError::UnexpectedError(f.operation)),
    }
}

/// What the workflow makes of the status update: a store failure is
/// surfaced as unexpected, and success completes the confirmation.
pub fn resolve_update(updated: Result<(), StoreFailure>) -> (r: Result<(), ConfirmationError>)
    ensures
        r == match updated {
            Ok(()) => Result::<(), ConfirmationError>::Ok(()),
            Err(f) => Result::<(), ConfirmationError>::Err(
                ConfirmationError::UnexpectedError(f.operation),
            ),
        },
{
    match updated {
        Ok(()) => Ok(()),
        Err(f) => Err(ConfirmationError::UnexpectedError(f.operation)),
    }
}

/// The three-step confirmation workflow against a store: validate the
/// token, look up the subscriber, read its status, and move a pending
/// subscriber to confirmed. The result says exactly which step stopped
/// a failing request.
pub fn try_confirm(store: &mut InMemoryStore, token: &str) -> (r: Result<(), ConfirmationError>)
    requires
        old(store).wf(),
    ensures
        final(store).wf(),
        final(store).tokens_view() == old(store).tokens_view(),
        r == confirm_result_spec(
            old(store).tokens_view(),
            old(store).subscribers_view(),
            token@,
        ),
        final(store).subscribers_view() == confirm_subscribers_after(
            old(store).tokens_view(),
            old(store).subscribers_view(),
            token@,
        ),
{
    match validate_token(token) {
        Ok(()) => {},
        Err(e) => {
            return Err(e);
        },
    }
    let subscriber_id = match store.get_subscriber_id_from_token(token) {
        Some(id) => id,
        None => {
            return Err(ConfirmationError::UnknownToken);
        },
    };
    match resolve_status_check(store.check_subscriber_already_confirmed(subscriber_id)) {
        Ok(()) => {},
        Err(e) => {
            return Err(e);
        },
    }
    resolve_update(store.confirm_subscriber(subscriber_id))
}

/// The confirmation workflow as the boundary sees it: one outcome code
/// per request, ready to be mapped to an HTTP status.
pub fn confirm(store: &mut InMemoryStore, token: &str) -> (outcome: OutcomeCode)
    requires
        old(store).wf(),
    ensures
        final(store).wf(),
        final(store).tokens_view() == old(store).tokens_view(),
        outcome == confirm_outcome_spec(
            old(store).tokens_view(),
            old(store).subscribers_view(),
            token@,
        ),
        final(store).subscribers_view() == confirm_subscribers_after(
            old(store).tokens_view(),
            old(store).subscribers_view(),
            token@,
        ),
{
    match try_confirm(store, token) {
        Ok(()) => OutcomeCode::Success,
        Err(e) => e.outcome(),
    }
}

/// A successful confirmation leaves the reached subscriber confirmed:
/// a status read after a success outcome returns confirmed.
pub proof fn lemma_success_confirms(
    tokens: Map<Seq<char>, u128>,
    subscribers: Map<u128, SubscriberStatus>,
    token: Seq<char>,
)
    requires
        confirm_outcome_spec(tokens, subscribers, token) == OutcomeCode::Success,
    ensures
        tokens.contains_key(token),
        confirm_subscribers_after(tokens, subscribers, token).contains_key(tokens[token]),
        confirm_subscribers_after(tokens, subscribers, token)[tokens[token]]
            == SubscriberStatus::Confirmed,
{
}

/// The idempotence guard: a token that just confirmed its subscriber
/// cannot confirm again. Two runs of the workflow never yield two
/// success outcomes — the second run against the updated store yields
/// a conflict and changes nothing further.
pub proof fn lemma_confirm_idempotence_guard(
    tokens: Map<Seq<char>, u128>,
    subscribers: Map<u128, SubscriberStatus>,
    token: Seq<char>,
)
    requires
        confirm_outcome_spec(tokens, subscribers, token) == OutcomeCode::Success,
    ensures
        confirm_outcome_spec(
            tokens,
            confirm_subscribers_after(tokens, subscribers, token),
            token,
        ) == OutcomeCode::Conflict,
        confirm_subscribers_after(
            tokens,
            confirm_subscribers_after(tokens, subscribers, token),
            token,
        ) == confirm_subscribers_after(tokens, subscribers, token),
{
}

/// The status state machine moves only forward: no run of the
/// workflow, with any token, moves a confirmed subscriber out of the
/// confirmed state.
pub proof fn lemma_no_transition_back(
    tokens: Map<Seq<char>, u128>,
    subscribers: Map<u128, SubscriberStatus>,
    token: Seq<char>,
    subscriber_id: u128,
)
    requires
        subscribers.contains_key(subscriber_id),
        subscribers[subscriber_id] == SubscriberStatus::Confirmed,
    ensures
        confirm_subscribers_after(tokens, subscribers, token).contains_key(subscriber_id),
        confirm_subscribers_after(tokens, subscribers, token)[subscriber_id]
            == SubscriberStatus::Confirmed,
{
}

/// A subscriber already in the confirmed state yields a conflict, with
/// no write performed, for any valid token that reaches it.
pub proof fn lemma_already_confirmed_is_conflict(
    tokens: Map<Seq<char>, u128>,
    subscribers: Map<u128, SubscriberStatus>,
    token: Seq<char>,
)
    requires
        is_valid_spec(token, TOKEN_MAX_LENGTH as nat),
        tokens.contains_key(token),
        subscribers.contains_key(tokens[token]),
        subscribers[tokens[token]] == SubscriberStatus::Confirmed,
    ensures
        confirm_outcome_spec(tokens, subscribers, token) == OutcomeCode::Conflict,
        confirm_subscribers_after(tokens, subscribers, token) == subscribers,
{
}

} // verus!
