//! Attaching an XDP program to network interfaces, alone or beside other
//! programs under the libxdp dispatcher.
//!
//! The library decides; it makes no call into the kernel. What the caller does on
//! its behalf, and what came of it, passes through plain values.
//!
//! * [`attach_mode`]: the attach mode and the command line value for it.
//! * [`config`]: the attach mode in the configuration file.
//! * [`attach`] and [`detach`]: the calls that attach and detach take, one step
//!   at a time.
//! * [`print`]: libxdp's messages as log lines.
//! * [`log_line`]: log lines.

pub mod attach;
pub mod attach_mode;
pub mod cli_laws;
pub mod config;
pub mod decimal;
pub mod detach;
pub mod libxdp;
pub mod log_line;
pub mod print;
pub mod text;
