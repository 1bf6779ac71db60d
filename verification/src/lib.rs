//! An adapter that lets a host drive one Kast interpreter: it starts the
//! interpreter, routes its text output to a callback of the host, and
//! evaluates source text, reporting a failure as a string.

pub mod bridge;
pub mod engine;
pub mod outcome;
pub mod request;
pub mod session;
