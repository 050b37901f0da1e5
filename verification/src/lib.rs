//! A blocking TCP client transport with its decisions separated from its system calls.
//!
//! The library makes no system call itself. Every operation on a
//! [`tcp::TcpStream`] is a small state machine: it names the system call to make
//! next as a [`sys::SysCall`], takes the raw answer as a [`sys::SysReturn`], and
//! decides what follows. The caller owns the loop that performs the calls.
//!
//! - [`error`] sorts the operating system's error numbers into timeouts and
//!   everything else.
//! - [`sys`] holds the calls, their answers, and the values that travel in them.
//! - [`model`] states what each step of an operation does, over plain values.
//! - [`tcp`] holds the stream and its operations.
//! - [`session`] holds the policy by which a driver runs a session over a stream.
//! - [`laws`] proves what holds of whole operations and whole sessions.
pub mod error;
pub mod sys;
pub mod model;
pub mod tcp;
pub mod session;
pub mod laws;
