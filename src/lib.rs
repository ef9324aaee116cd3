//! Newsletter signup: input validation, confirmation tokens, the confirmation
//! email, the signup pipeline that ties them to storage and delivery, and the
//! check of the signed error message shown on the login page.

pub mod domain;
pub mod token;
pub mod email_client;
pub mod subscriptions;
pub mod pipeline;
pub mod login;
