//! Log-tailing and event-debouncing core of the desktop companion: which
//! filesystem notifications matter, what part of a changed log file is kept,
//! how bursts of reads are coalesced into a bounded-rate stream of events, and
//! the single-instance lifecycle of a watch session.
use vstd::prelude::*;

pub mod app_state;
pub mod error;
pub mod log_watcher;
pub mod system_tray;
pub mod tarkov_paths;
