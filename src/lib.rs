//! A client library for a cryptocurrency exchange's REST trading API.
//!
//! The library decides everything about a call that does not touch the
//! network: the clock offset, the canonical query string, its signature, the
//! request line and authentication header, and how a response body is read
//! back into a payload or an error. A transport performs the request that the
//! library prepares and hands the body back.

pub mod client;
pub mod clock;
pub mod error;
pub mod query;
pub mod response;
pub mod signature;
