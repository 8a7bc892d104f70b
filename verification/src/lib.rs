//! Decision logic for a control-surface synchronization loop.
//!
//! The library models one cycle of a fetch-render-poll-dispatch loop that
//! keeps a small button display in step with a remote production session:
//! a [`snapshot::Snapshot`] captures the session's state, [`render`] decides
//! which icons to write to which button slots, and [`dispatch`] translates a
//! pressed-button vector into session commands. [`cycle`] ties the poll
//! outcome to the action the loop takes next. All device and network I/O is
//! left to the surrounding program; every function here is a pure decision
//! with a proved contract.

pub mod cycle;
pub mod dispatch;
pub mod render;
pub mod snapshot;
