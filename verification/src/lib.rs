//! Reporting one environment variable and probing a tool's version.
//!
//! The crate holds the two pieces of an environment reporter that can be
//! stated exactly: the line that reports the outcome of a variable lookup
//! ([`reporter`]) and the decoding of a tool's captured output as text
//! ([`probe`]). Looking the variable up and running the tool are left to the
//! caller, who hands over plain values.
pub mod probe;
pub mod reporter;
pub mod text;
