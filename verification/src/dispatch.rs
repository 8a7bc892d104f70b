//! Dispatch decisions: which session commands a pressed-button vector calls
//! for, judged against the snapshot that was rendered in the same cycle.
//!
//! The press vector is a level sample of the buttons at poll time, one flag
//! per physical button. Slot 1 pressed asks to toggle between the two known
//! scenes; slot 2 pressed asks to toggle recording. Both may be set at once,
//! and then both commands are planned, in slot order. A scene-toggle press
//! while the scene is unknown has no defined target and is an
//! unexpected-state error: no command is planned at all.
//!
//! Dispatch deliberately acts on the snapshot used for rendering, not on a
//! fresh read: the press acts on what the user saw when pressing.

use crate::snapshot::{is_known_scene, scene_is, toggled_scene, Snapshot, SnapshotModel};
use vstd::prelude::*;

verus! {

/// A mutating command to issue to the session.
#[derive(Clone, Debug, PartialEq, Eq)]
pub enum Command {
    /// Make the named scene the current program scene.
    SetScene(String),
    /// Start the record output.
    StartRecording,
    /// Stop the record output.
    StopRecording,
}

/// The mathematical value of a [`Command`]: the scene name as a character
/// sequence.
pub enum CommandModel {
    SetScene(Seq<char>),
    StartRecording,
    StopRecording,
}

impl View for Command {
    type V = CommandModel;

    open spec fn view(&self) -> CommandModel {
        match self {
            Command::SetScene(name) => CommandModel::SetScene(name@),
            Command::StartRecording => CommandModel::StartRecording,
            Command::StopRecording => CommandModel::StopRecording,
        }
    }
}

/// The values of a sequence of commands.
pub open spec fn commands_model(commands: Seq<Command>) -> Seq<CommandModel> {
    commands.map_values(|c: Command| c@)
}

/// The one way a dispatch decision can fail.
#[derive(Clone, Copy, Debug, PartialEq, Eq, Structural)]
pub enum DispatchError {
    /// A scene-toggle press arrived while the current scene was not one of
    /// the two known names; there is no policy for toggling from it.
    UnknownScene,
}

/// The command a recording-toggle press calls for: stop if recording, start
/// if not.
pub open spec fn recording_command(active: bool) -> CommandModel {
    if active {
        CommandModel::StopRecording
    } else {
        CommandModel::StartRecording
    }
}

/// A press vector can be dispatched unless it asks for a scene toggle while
/// the scene is unknown.
pub open spec fn dispatch_allowed(pressed: Seq<u8>, snap: SnapshotModel) -> bool {
    pressed[0] == 1 ==> is_known_scene(snap.scene)
}

/// The commands a press vector calls for, in slot order: the scene toggle
/// if slot 1 is pressed, then the recording toggle if slot 2 is pressed.
pub open spec fn planned_commands(pressed: Seq<u8>, snap: SnapshotModel) -> Seq<CommandModel>
    recommends
        dispatch_allowed(pressed, snap),
{
    let scene_part = if pressed[0] == 1 {
        seq![CommandModel::SetScene(toggled_scene(snap.scene))]
    } else {
        Seq::<CommandModel>::empty()
    };
    let recording_part = if pressed[1] == 1 {
        seq![recording_command(snap.recording)]
    } else {
        Seq::<CommandModel>::empty()
    };
    scene_part + recording_part
}

/// Decide the scene a toggle press switches to.
///
/// Returns the other of the two known scene names, or the
/// unexpected-state error when the current scene is neither of them.
pub fn toggle_scene(current: &String) -> (r: Result<String, DispatchError>)
    ensures
        is_known_scene(current@) ==> (r matches Ok(next) && next@ == toggled_scene(current@)),
        !is_known_scene(current@) ==> r == Err::<String, DispatchError>(
            DispatchError::UnknownScene,
        ),
{
    if scene_is(current, "Coding") {
        Ok("Talking".to_owned())
    } else if scene_is(current, "Talking") {
        Ok("Coding".to_owned())
    } else {
        Err(DispatchError::UnknownScene)
    }
}

/// Decide the command a recording-toggle press calls for.
pub fn toggle_recording(active: bool) -> (c: Command)
    ensures
        c@ == recording_command(active),
{
    if active {
        Command::StopRecording
    } else {
        Command::StartRecording
    }
}

/// Decide the session commands for one press vector and the snapshot that
/// was rendered in the same cycle.
///
/// Exactly the planned commands come back, in slot order, whenever the
/// vector can be dispatched; the unexpected-state error comes back, and no
/// command with it, exactly when slot 1 is pressed while the scene is
/// unknown. A vector with no flag set yields no command.
pub fn dispatch_plan(pressed: &Vec<u8>, snap: &Snapshot) -> (r: Result<
    Vec<Command>,
    DispatchError,
>)
    requires
        pressed@.len() >= 2,
    ensures
        dispatch_allowed(pressed@, snap@) ==> (r matches Ok(commands) && commands_model(commands@)
            == planned_commands(pressed@, snap@)),
        !dispatch_allowed(pressed@, snap@) ==> r == Err::<Vec<Command>, DispatchError>(
            DispatchError::UnknownScene,
        ),
{
    let mut commands: Vec<Command> = Vec::new();
    if pressed[0] == 1 {
        match toggle_scene(&snap.current_scene) {
            Ok(next) => commands.push(Command::SetScene(next)),
            Err(e) => {
                return Err(e);
            },
        }
    }
    if pressed[1] == 1 {
        commands.push(toggle_recording(snap.recording));
    }
    proof {
        assert(commands_model(commands@) =~= planned_commands(pressed@, snap@));
    }
    Ok(commands)
}

} // verus!
