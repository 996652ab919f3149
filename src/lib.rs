//! A command-line HTTP client's core: validation of the inputs of a run,
//! header parsing, the plan of one request per URL, and the records and
//! failure summary of a batch.
use vstd::prelude::*;

pub mod cli;
pub mod http;
pub mod output;
pub mod text;
