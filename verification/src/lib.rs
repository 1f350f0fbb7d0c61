//! Client-side logic for a crates.io-style package registry.
//!
//! The verified core covers the three places where this library makes a
//! decision: building the request (URL and identification header),
//! classifying a failed HTTP exchange, and looking up versions and
//! features inside a decoded package record. The HTTP transport and the
//! JSON decoder are external collaborators; a thin unverified shell
//! drives them and hands this crate plain values.

pub mod builder;
pub mod error;
pub mod model;
pub mod request;

pub use builder::has_empty_user_agent;
pub use builder::KrateClientBuilder;
pub use error::handle_error;
pub use error::is_success_status;
pub use error::KrateError;
pub use model::Krate;
pub use model::KrateCategory;
pub use model::KrateKeyword;
pub use model::KrateMetadata;
pub use model::KrateVersion;
pub use request::request_url;
