use newsletter::ConfirmationError;
use newsletter::Parameters;
use newsletter::FormData;
use newsletter::InMemoryStore;
use newsletter::OutcomeCode;
use newsletter::StoreFailure;
use newsletter::StoreOperation;
use newsletter::SubscriberStatus;
use newsletter::confirm;
use newsletter::greet;
use newsletter::resolve_status_check;
use newsletter::resolve_token_lookup;
use newsletter::resolve_update;
use newsletter::subscribe;
use newsletter::try_confirm;
use newsletter::validate_token;

fn store_with(token: &str, subscriber_id: u128, status: SubscriberStatus) -> InMemoryStore {
    let mut store = InMemoryStore::new();
    store.add_subscriber(subscriber_id, status);
    store.add_token(token.to_string(), subscriber_id);
    store
}

#[test]
fn pending_subscriber_is_confirmed() {
    let mut store = store_with("tok_valid_unused", 7, SubscriberStatus::PendingConfirmation);
    let outcome = confirm(&mut store, "tok_valid_unused");
    assert_eq!(outcome, OutcomeCode::Success);
    assert_eq!(
        store.check_subscriber_already_confirmed(7),
        Ok(SubscriberStatus::Confirmed)
    );
}

#[test]
fn already_confirmed_subscriber_is_a_conflict() {
    let mut store = store_with("tok_confirmed_already", 7, SubscriberStatus::Confirmed);
    let outcome = confirm(&mut store, "tok_confirmed_already");
    assert_eq!(outcome, OutcomeCode::Conflict);
    assert_eq!(
        store.check_subscriber_already_confirmed(7),
        Ok(SubscriberStatus::Confirmed)
    );
    assert_eq!(store.get_subscriber_id_from_token("tok_confirmed_already"), Some(7));
}

#[test]
fn unknown_token_is_unauthorized() {
    let mut store = store_with("tok_valid_unused", 7, SubscriberStatus::PendingConfirmation);
    let outcome = confirm(&mut store, "unknown_xyz");
    assert_eq!(outcome, OutcomeCode::Unauthorized);
    assert_eq!(
        store.check_subscriber_already_confirmed(7),
        Ok(SubscriberStatus::PendingConfirmation)
    );
}

#[test]
fn script_token_is_a_bad_request_without_store_access() {
    // Even a token the store knows is refused before any lookup when it
    // carries forbidden characters: the subscriber stays pending.
    let mut store = store_with("tok<script>", 7, SubscriberStatus::PendingConfirmation);
    let outcome = confirm(&mut store, "tok<script>");
    assert_eq!(outcome, OutcomeCode::BadRequest);
    assert_eq!(
        store.check_subscriber_already_confirmed(7),
        Ok(SubscriberStatus::PendingConfirmation)
    );
}

#[test]
fn confirming_twice_yields_success_then_conflict() {
    let mut store = store_with("tok_valid_unused", 7, SubscriberStatus::PendingConfirmation);
    let first = confirm(&mut store, "tok_valid_unused");
    let second = confirm(&mut store, "tok_valid_unused");
    assert_eq!(first, OutcomeCode::Success);
    assert_eq!(second, OutcomeCode::Conflict);
}

#[test]
fn missing_subscriber_row_is_an_internal_error() {
    let mut store = InMemoryStore::new();
    store.add_token("tok_orphaned".to_string(), 9);
    let outcome = confirm(&mut store, "tok_orphaned");
    assert_eq!(outcome, OutcomeCode::InternalError);
}

#[test]
fn missing_subscriber_row_names_the_failing_operation() {
    let mut store = InMemoryStore::new();
    store.add_token("tok_orphaned".to_string(), 9);
    let result = try_confirm(&mut store, "tok_orphaned");
    assert_eq!(
        result,
        Err(ConfirmationError::UnexpectedError(StoreOperation::FetchStatus))
    );
}

#[test]
fn failed_lookup_resolves_to_an_identifiable_internal_error() {
    let failure = StoreFailure { operation: StoreOperation::FetchSubscriberId };
    let resolved = resolve_token_lookup(Err(failure));
    assert_eq!(
        resolved,
        Err(ConfirmationError::UnexpectedError(StoreOperation::FetchSubscriberId))
    );
    assert_eq!(resolved.unwrap_err().status_code(), 500);
}

#[test]
fn lookup_resolution_distinguishes_found_and_missing() {
    assert_eq!(resolve_token_lookup(Ok(Some(42))), Ok(42));
    assert_eq!(
        resolve_token_lookup(Ok(None)),
        Err(ConfirmationError::UnknownToken)
    );
}

#[test]
fn status_resolution_guards_against_double_confirmation() {
    assert_eq!(resolve_status_check(Ok(SubscriberStatus::PendingConfirmation)), Ok(()));
    assert_eq!(
        resolve_status_check(Ok(SubscriberStatus::Confirmed)),
        Err(ConfirmationError::AlreadyConfirmed)
    );
    let failure = StoreFailure { operation: StoreOperation::FetchStatus };
    assert_eq!(
        resolve_status_check(Err(failure)),
        Err(ConfirmationError::UnexpectedError(StoreOperation::FetchStatus))
    );
}

#[test]
fn update_resolution_surfaces_store_failures() {
    assert_eq!(resolve_update(Ok(())), Ok(()));
    let failure = StoreFailure { operation: StoreOperation::UpdateStatus };
    assert_eq!(
        resolve_update(Err(failure)),
        Err(ConfirmationError::UnexpectedError(StoreOperation::UpdateStatus))
    );
}

#[test]
fn token_validation_gate() {
    assert_eq!(validate_token("tok_valid_unused"), Ok(()));
    assert_eq!(validate_token("tok<script>"), Err(ConfirmationError::InvalidToken));
    assert_eq!(
        validate_token("this_token_is_way_too_long_to_accept"),
        Err(ConfirmationError::InvalidToken)
    );
}

#[test]
fn outcome_codes_map_to_http_statuses() {
    assert_eq!(OutcomeCode::Success.status_code(), 200);
    assert_eq!(OutcomeCode::BadRequest.status_code(), 400);
    assert_eq!(OutcomeCode::Unauthorized.status_code(), 401);
    assert_eq!(OutcomeCode::Conflict.status_code(), 409);
    assert_eq!(OutcomeCode::InternalError.status_code(), 500);
}

#[test]
fn errors_map_to_http_statuses() {
    assert_eq!(ConfirmationError::InvalidToken.status_code(), 400);
    assert_eq!(ConfirmationError::UnknownToken.status_code(), 401);
    assert_eq!(ConfirmationError::AlreadyConfirmed.status_code(), 409);
    assert_eq!(
        ConfirmationError::UnexpectedError(StoreOperation::UpdateStatus).status_code(),
        500
    );
}

#[test]
fn subscribe_greets_the_subscriber() {
    let form = FormData { name: "John".to_string(), email: "john@example.com".to_string() };
    assert_eq!(subscribe(&form), "Hello John, email john@example.com".to_string());
}

#[test]
fn greet_names_the_caller() {
    assert_eq!(greet("World"), "Hello World!".to_string());
}

#[test]
fn confirming_one_subscriber_leaves_others_untouched() {
    let mut store = InMemoryStore::new();
    store.add_subscriber(1, SubscriberStatus::PendingConfirmation);
    store.add_subscriber(2, SubscriberStatus::PendingConfirmation);
    store.add_token("tok_for_one".to_string(), 1);
    store.add_token("tok_for_two".to_string(), 2);
    assert_eq!(confirm(&mut store, "tok_for_one"), OutcomeCode::Success);
    assert_eq!(
        store.check_subscriber_already_confirmed(1),
        Ok(SubscriberStatus::Confirmed)
    );
    assert_eq!(
        store.check_subscriber_already_confirmed(2),
        Ok(SubscriberStatus::PendingConfirmation)
    );
}

#[test]
fn parameters_carry_the_token() {
    let params = Parameters { subscription_token: "tok_valid_unused".to_string() };
    let mut store = store_with("tok_valid_unused", 7, SubscriberStatus::PendingConfirmation);
    assert_eq!(confirm(&mut store, &params.subscription_token), OutcomeCode::Success);
}

#[test]
fn tokens_are_looked_up_exactly() {
    let store = store_with("tok_valid_unused", 7, SubscriberStatus::PendingConfirmation);
    assert_eq!(store.get_subscriber_id_from_token("tok_valid_unused"), Some(7));
    assert_eq!(store.get_subscriber_id_from_token("tok_valid_unuse"), None);
    assert_eq!(store.get_subscriber_id_from_token("tok_valid_unusedd"), None);
    assert_eq!(store.get_subscriber_id_from_token(""), None);
}
