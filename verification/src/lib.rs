//! IPC window synchronization engine.
//!
//! A host process publishes the desired state of a companion UI window
//! (position, size, visibility, z-order, owner, drag payload) through a
//! fixed-layout 64-byte shared-memory control block, plus two text side
//! files (a detach signal and a drag payload). This crate holds the
//! verified core of the engine that mirrors that state: the control-block
//! codec, the torn-read consistency gate, the drag-payload bridge, the
//! detach monitor, and the window-state reconciler. The surrounding
//! process supplies the I/O (memory mapping, file reads, window-manager
//! calls) and applies the operations this engine decides on.

pub mod codec;
pub mod config;
pub mod drop_bridge;
pub mod gate;
pub mod reconciler;
pub mod session;
pub mod text;
