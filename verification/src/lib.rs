//! Levenshtein edit distance between Unicode texts, with the input validation
//! that a foreign caller's values must pass before the distance is computed.

pub mod metric;
pub mod laws;
pub mod script;
pub mod engine;
pub mod error;
pub mod text;
pub mod validate;
pub mod boundary;

pub use boundary::distance_ruby;
pub use engine::distance;
pub use error::{Argument, DistanceError, ErrorKind, FailedCheck};
pub use validate::{ensure_valid_utf8, Encoding, HostValue};
