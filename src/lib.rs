//! Launching a child process attached to a pseudo console.
//!
//! The library holds the verified logic of a pseudo-console session: the
//! encoding of command lines and environment blocks, the console size and
//! mode computations, the decisions taken on the outcome of a wait, the
//! non-blocking read gate, and the fixed teardown order of a session.
pub mod console;
pub mod error;
pub mod io;
pub mod process;
pub mod wide;
