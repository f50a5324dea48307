//! A verified core for a small `cat`-style utility: it concatenates the
//! contents of zero or more sources (named files or standard input) to one
//! output stream, in the order given, isolating per-source read failures.
//!
//! The crate holds the logic of the tool: interpreting the argument list,
//! choosing the action to take, composing the usage, version and diagnostic
//! texts, and stating exactly what output a run produces for given source
//! contents. The thin binary around it performs the actual reads and writes.

pub mod args;
pub mod paths;
pub mod stream;
pub mod text;
