//! Switching the input source of monitors without ever blocking the thread
//! that draws the interface.
//!
//! A worker owns the hardware and serves one request at a time; a
//! coordinator issues the requests, looks for the answers once per frame,
//! keeps what the user has selected and collects the failures to show.
//!
//! - [`input_source`], [`display`]: the input sources and what is known of
//!   a monitor.
//! - [`position_map`], [`selection`]: the table from monitor numbers to
//!   positions, and the user's selection over one detection batch.
//! - [`command`], [`worker`]: the requests, and the worker's decisions.
//! - [`errors`], [`coordinator`]: the queue of failure messages, and the
//!   coordinator's state machine.
//! - [`protocol`]: what holds of every run of the coordinator.
//! - [`link`]: the coordinator joined to the worker by channels.
//! - [`cli`]: the monitor table as text.
//! - [`text`]: decimal numerals and joined texts.

pub mod cli;
pub mod command;
pub mod coordinator;
pub mod display;
pub mod errors;
pub mod input_source;
pub mod link;
pub mod position_map;
pub mod protocol;
pub mod selection;
pub mod text;
pub mod worker;
