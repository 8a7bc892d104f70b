//! The decision at the heart of one loop cycle: what the poll outcome means
//! for the rest of the cycle.
//!
//! Each cycle fetches a snapshot, renders it, then polls the surface for up
//! to the poll timeout. The poll has three outcomes: a press vector, which
//! is dispatched against the snapshot rendered this cycle; no data within
//! the timeout, which is the normal idle outcome and simply starts the next
//! cycle; or a device error, which ends the loop. The surrounding program
//! performs the poll and carries out the action decided here.

use crate::dispatch::{
    commands_model, dispatch_allowed, dispatch_plan, planned_commands, Command, DispatchError,
};
use crate::snapshot::Snapshot;
use vstd::prelude::*;

verus! {

/// What one poll of the control surface produced.
pub enum PollOutcome {
    /// The surface returned a press vector, one flag per physical button.
    Pressed(Vec<u8>),
    /// Nothing arrived within the poll timeout: the expected idle outcome,
    /// not an error.
    NoData,
    /// The device failed in some other way.
    DeviceError,
}

/// Why a cycle ends the loop.
#[derive(Clone, Copy, Debug, PartialEq, Eq, Structural)]
pub enum CycleError {
    /// The surface reported a hard error during the poll.
    Device,
    /// A scene-toggle press arrived while the scene was unknown.
    UnknownScene,
}

/// What the loop does with a poll outcome.
#[derive(Clone, Debug, PartialEq, Eq)]
pub enum CycleAction {
    /// Issue these session commands, in order, then start the next cycle.
    Issue(Vec<Command>),
    /// Issue nothing and start the next cycle.
    Idle,
    /// End the loop with this error.
    Fail(CycleError),
}

/// An action lets the loop proceed to the next fetch unless it fails.
pub open spec fn proceeds_to_next_fetch(action: CycleAction) -> bool {
    !(action is Fail)
}

/// Decide what one poll outcome means, against the snapshot that was
/// rendered this same cycle.
///
/// No data never dispatches: the loop just proceeds to the next fetch. A
/// press vector is dispatched against the given snapshot, yielding exactly
/// the planned commands, or the unexpected-state failure when it asks to
/// toggle an unknown scene. A device error ends the loop.
pub fn poll_step(outcome: PollOutcome, snap: &Snapshot) -> (action: CycleAction)
    requires
        outcome matches PollOutcome::Pressed(pressed) ==> pressed@.len() >= 2,
    ensures
        outcome is NoData ==> action is Idle && proceeds_to_next_fetch(action),
        outcome is DeviceError ==> action == CycleAction::Fail(CycleError::Device),
        outcome matches PollOutcome::Pressed(pressed) ==> {
            &&& dispatch_allowed(pressed@, snap@) ==> (action matches CycleAction::Issue(commands)
                && commands_model(commands@) == planned_commands(pressed@, snap@))
            &&& !dispatch_allowed(pressed@, snap@) ==> action == CycleAction::Fail(
                CycleError::UnknownScene,
            )
        },
{
    match outcome {
        PollOutcome::Pressed(pressed) => match dispatch_plan(&pressed, snap) {
            Ok(commands) => CycleAction::Issue(commands),
            Err(DispatchError::UnknownScene) => CycleAction::Fail(CycleError::UnknownScene),
        },
        PollOutcome::NoData => CycleAction::Idle,
        PollOutcome::DeviceError => CycleAction::Fail(CycleError::Device),
    }
}

} // verus!
