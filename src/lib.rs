//! A command-line throughput probe: choosing measurement servers, the
//! download/upload test sequence on one server, and falling back to the next
//! server when a test fails.
use vstd::prelude::*;

/// Command-line options and the configuration resolved from them.
pub mod cli;
/// Server descriptors and candidate selection.
pub mod server;
/// Helpers for the server table.
pub mod speed;

pub use cli::{CliArgs, Config, ConfigBuilder};
pub use server::{Server, ServerList};
pub use test::{Test, TestDirection};

verus! {

} // verus!
