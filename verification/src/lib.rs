//! A background counter: one worker task accumulates step contributions into a
//! shared cell while its owner stays free to read the cell, request a
//! cooperative stop and wait for the task to end.
//!
//! `series`, `tally` and `progress` hold the counter's arithmetic and the
//! worker's life as a state machine; `shared_cell`, `cancel_token`, `worker` and
//! `service` run that machine on state that threads share. The other modules
//! are small helpers of their own: stopwatch and timer, date and time stamps,
//! a named point, a host with a plug-in, events, rows of items, and two
//! ways of handing work and failures around.

pub mod bubbling;
pub mod callback;
pub mod cancel_token;
pub mod defaulted;
pub mod event;
pub mod failure;
mod handle;
pub mod plugin;
pub mod plugin_ref;
pub mod point;
pub mod progress;
pub mod rows;
pub mod series;
pub mod service;
pub mod shared_cell;
pub mod stamp;
pub mod stopwatch;
pub mod tally;
pub mod worker;
