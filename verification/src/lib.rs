//! A verified core for a small compositor-protocol client.
//!
//! The crate models the logic of a display-protocol session: the
//! registry-binding bootstrap, the configure/acknowledge handshake, the
//! shared-memory frame-buffer geometry, the keyboard input pipeline, and the
//! scheduler that interleaves the protocol socket with an audio iteration
//! loop.  Everything that talks to the outside world (the compositor socket,
//! shared-memory system calls, the keymap compiler, the audio server) lives in
//! a thin unverified shell that feeds this library plain values and carries
//! out the actions it decides on.

pub mod framebuffer;
pub mod game;
pub mod geometry;
pub mod input;
pub mod scheduler;
pub mod session;
pub mod shm;
pub mod text;
