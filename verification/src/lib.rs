//! A small semantic-version library.
//!
//! [`parse`] validates a `major.minor.patch` version string (with an optional
//! pre-release suffix) against a strict grammar and returns its three numeric
//! components. [`satisfies`] evaluates whether a version string matches a
//! range expression built from an operator prefix (`=`, `^`, `~`, `*`, `>`,
//! `>=`, `<`, `<=`) and a version-shaped pattern whose components may be
//! wildcards.

pub mod errors;
pub mod laws;
pub mod num;
pub mod prerelease;
pub mod range;
pub mod version;

pub use errors::Error;
pub use errors::ParseError;
pub use errors::ParseRangeError;
pub use range::satisfies;
pub use range::Operation;
pub use version::parse;
pub use version::Version;
