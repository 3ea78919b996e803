//! Initialise a local repository and create its hosted counterpart.
//!
//! The library holds the decisions: how the command line becomes a request,
//! which answers confirm, and how the outcome of each external tool moves the
//! session on. Running the tools, reading the terminal and printing are left
//! to the caller.
pub mod text;
pub mod error;
pub mod request;
pub mod probe;
pub mod session;
