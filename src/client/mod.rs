//! The client workflows: attach, detach, and list the imported devices and
//! those a server exports.
pub mod attach;
pub mod detach;
pub mod list;
pub mod port;
