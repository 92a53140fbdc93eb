//! OAuth2 credential lifecycle for a command-line music playback client.
//!
//! The crate models the credential set that the client persists between
//! invocations, decides when a stored access token may be used, when it must
//! be refreshed, and when the user has to authorize interactively, and
//! classifies the authorization server's and resource server's replies.
//! Network transport and on-disk persistence live outside this crate; the
//! lifecycle manager drives them through explicit commands and events.

pub mod credential;
pub mod manager;
pub mod requests;
pub mod store;
