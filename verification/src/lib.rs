//! Build and check the pieces of a short social-media post ("yawp"):
//! map HTTP status codes to readable errors, parse env-file lines into
//! key/value pairs, join stdin lines into one message, prepare the
//! Mastodon and Twitter requests, and decide what is printed where.

pub mod env_file;
pub mod error;
pub mod mastodon;
pub mod message;
pub mod twitter;
pub mod yawp;

pub use error::APIError;
pub use error::check_status;
