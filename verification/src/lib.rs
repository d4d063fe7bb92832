//! The model of a terminal dashboard for a Bitaxe miner.

pub mod config;
pub mod layout;
pub mod log_line;
pub mod log_stream;
pub mod meters;
pub mod metric;
pub mod panes;
pub mod poller;
pub mod reading;
pub mod snapshot;
pub mod state;
pub mod text;
pub mod theme;
pub mod ui_loop;
