//! What each endpoint decides. The transport, the store and the email
//! service are reached by the caller, which does what these functions tell
//! it and reports back how it went.

pub mod hello;
pub mod login;
pub mod newsletters;
pub mod subscriptions;
pub mod subscriptions_confirm;
