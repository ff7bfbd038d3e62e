//! One authorization shared by many callers.

pub mod auth_source;

pub use self::auth_source::AuthSource;
