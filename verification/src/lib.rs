//! Verified core of a command-line pipe that forwards data from terminal
//! clients to browser dashboards through a local daemon.

pub mod client;
pub mod cmd_line;
pub mod daemon;
pub mod json;
pub mod proto;
pub mod util;
