//! The decisions of an object store's HTTP client: which cached token a request may use and
//! who refreshes it, how a response crosses from one runtime to another, in what order the
//! addresses of a host are tried, and which slow steps are worth a warning.
//!
//! A function here takes what was observed (a clock reading, a reply, a frame) as an argument
//! and says what happens next. The crate's callers do the waiting, sending and logging.

pub mod dns;
pub mod error;
pub mod request;
pub mod request_laws;
pub mod slow;
pub mod spawn;
pub mod spawn_laws;
pub mod text;
pub mod time;
pub mod token;
pub mod token_laws;
pub mod transfer_laws;
