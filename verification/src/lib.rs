//! Wi-Fi RF test mode commands for Marvell/NXP mwifiex cards: the wire format of
//! the manufacturing commands, their encoding into host command buffers and
//! the decoding of firmware responses, the legacy procfs command syntax, and
//! the helpers that the command line front end builds on.

pub mod command;
pub mod ffi;
pub mod interactive;
pub mod layout;
pub mod netlink;
pub mod pretty;
pub mod procfs;
pub mod runner;
pub mod text;
pub mod util;
pub mod wire;
