//! Session state for a cookie-and-signature authenticated web platform:
//! the credential store, the auth service in front of it, the QR-code login
//! state machine, and the builder of signed outbound requests.

pub mod auth;
pub mod client;
pub mod creator;
pub mod credentials;
pub mod error;
pub mod feed;
pub mod login;
pub mod note;
pub mod notification;
pub mod request;
pub mod search;
pub mod store;
pub mod text;
