//! Deterministic peer-to-peer rollback synchronization for a fixed-tick,
//! two-player simulation.
//!
//! Each peer runs an identical fixed-step simulation and exchanges compact
//! per-frame input bitmasks over an unreliable channel.  Divergence between
//! locally predicted and remotely confirmed inputs is resolved by restoring a
//! saved snapshot and resimulating the affected frames.  The crate provides
//! the input codec, the bounded input history, the snapshot store, the frame
//! scheduler that drives save / rewind / resimulate / advance, the desync
//! detector, and the session fault surface.

pub mod input;
pub mod sim;
pub mod desync;
pub mod events;
pub mod frame;
pub mod history;
pub mod scheduler;
pub mod session;
pub mod snapshot;
