//! A loadable extension for an embedded SQL database engine that provides one
//! deterministic scalar function, `hamming_distance(a, b)`: the bitwise
//! Hamming distance between two equal-length binary values.
//!
//! This crate holds the verified core: the distance computation itself, the
//! registration record under which the host is asked to install the function,
//! the status codes handed back to the host at load time, and the record types
//! of the surrounding application. The foreign-function entry point that the
//! host calls, and the application glue around the database, are thin
//! unverified shells over these items.

pub mod distance;
pub mod extension;
pub mod models;

pub use distance::HammingError;
pub use distance::hamming_distance;
pub use extension::FunctionRegistration;
pub use extension::LoadOutcome;
pub use extension::hamming_registration;
pub use models::Book;
pub use models::NewBook;
