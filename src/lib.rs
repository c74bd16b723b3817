//! The event vocabulary of a user interface and the algebra of event statuses.
pub mod event;
