//! Core of an operator login flow: credential validation against stored
//! password hashes, session establishment with fixation-defeating rotation,
//! and the redirect-with-flash-message protocol for reporting failures.
//!
//! The HTTP server, the SQL connection pool and the cookie plumbing are
//! collaborators outside this crate; they hand the functions here plain
//! values (a looked-up record, a form's fields) and perform the redirects
//! and store writes that these functions decide on.

pub mod authentication;
pub mod flash_messages;
pub mod routes;
pub mod session_state;
