//! The decisions of the DICE command line client.
//!
//! The client packs runtimes and input data, hands them to the service,
//! makes projects, jobs and job executions, and fetches the output of a
//! completed job execution. This library decides what is done and in which
//! order: it selects the command from the options (`arguments`), and leads it
//! step by step (`session`), telling the caller which effect to carry out
//! next (`plan`) and taking in what came of it. It touches neither the file
//! system nor the network.

pub mod arguments;
pub mod artifact;
pub mod download;
pub mod filter;
pub mod ident;
pub mod marker;
pub mod plan;
pub mod records;
pub mod runtime;
pub mod session;
pub mod state;
pub mod text;
pub mod tool;
