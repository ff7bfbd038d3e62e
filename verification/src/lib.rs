//! Transport and decoding core of a client for the Backblaze B2 object storage API.
//!
//! The crate holds the parts of the client that decide things: the incremental decoder
//! that cuts a JSON list into its elements while the body is still arriving, the state
//! machines that turn a pending exchange into a value or an error, the single-flight
//! store of the account authorization, and the token bucket that throttles a stream of
//! chunks. Network and timer work is left to the caller, who feeds these state machines
//! with events and performs the actions they hand back.

pub mod auth;
pub mod b2_future;
pub mod buckets;
pub mod chunk;
pub mod error;
pub mod files;
pub mod partial_json;
pub mod source;
pub mod stream_util;
pub mod text;
pub mod throttle;

pub use error::B2Error;
pub use error::B2ErrorMessage;
