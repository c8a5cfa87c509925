//! A verified core for a newsletter-subscription service.
//!
//! The library holds the two pieces of real logic behind the service's
//! HTTP surface: a validator for untrusted input strings, and the
//! confirmation workflow that moves a subscriber from pending to
//! confirmed. Both carry contracts that state exactly which outcome
//! every input produces.

pub mod confirm;
pub mod forms;
pub mod outcome;
pub mod store;
pub mod validation;

pub use confirm::Parameters;
pub use confirm::confirm;
pub use confirm::resolve_status_check;
pub use confirm::resolve_token_lookup;
pub use confirm::resolve_update;
pub use confirm::try_confirm;
pub use confirm::validate_token;
pub use forms::FormData;
pub use forms::greet;
pub use forms::subscribe;
pub use outcome::ConfirmationError;
pub use outcome::OutcomeCode;
pub use outcome::StoreFailure;
pub use outcome::StoreOperation;
pub use store::InMemoryStore;
pub use store::SubscriberStatus;
pub use validation::is_valid_input_string;
