//! Decision logic of a tool that waits until a network service is reachable
//! and then hands over to a follow-up command.
//!
//! Nothing here touches the network, the clock, the terminal or a child
//! process. The caller does that and reports what it saw; the library tells
//! it what to do next, what to print and how to exit:
//!
//! - [`target`] reads the target argument into a host and port or a URL.
//! - [`config`] holds the settings of one run.
//! - [`check`] plans a check, steers a TCP probe through the resolved
//!   addresses and judges an HTTP reply.
//! - [`wait`] is the retry loop as a state machine.
//! - [`command`] splits the follow-up command and gives the exit status.
//! - [`output`] decides on colour and streams and holds the lines to print.
//! - [`text`] has the digits and numerals that the others need.

pub mod check;
pub mod command;
pub mod config;
pub mod output;
pub mod target;
pub mod text;
pub mod wait;
