//! A minimal web-page responder and greeter.
//!
//! The page responder renders one named template with a one-entry context
//! and maps the outcome to an HTTP response: success gives 200 with the
//! rendered markup, any render failure gives 501 with an empty body.
//! The greeter builds the fixed greeting message that a host dialog shows.

pub mod greeting;
pub mod page;
