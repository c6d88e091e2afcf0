//! Pseudoterminal allocation and terminal-proxy primitives.
//!
//! The crate models the pty lifecycle: descriptor ownership, raw-mode
//! terminal configuration with restoration, window-size geometry, the
//! byte-pump shutdown protocol, and the server/client state machines.
//! The kernel calls themselves (ioctl, splice, process spawning) are the
//! caller's business; the logic that decides what to ask of the kernel,
//! and in which order, lives here with its contracts.

pub mod client;
pub mod fd;
pub mod path;
pub mod pump;
pub mod server;
pub mod term;
pub mod winsize;

pub use client::ClientState;
pub use fd::FileDesc;
pub use server::TtyServer;
pub use winsize::WinSize;
