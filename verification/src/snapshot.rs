//! The state snapshot: one atomic read of the remote session's state, and
//! the small set of scene names the surface knows how to represent.

use vstd::prelude::*;

verus! {

/// An immutable capture of the session's state at one instant.
///
/// One snapshot is taken per loop cycle; the same snapshot drives both the
/// rendering of the surface and the dispatch of any press read in that cycle,
/// so a press always acts on what the user saw.
pub struct Snapshot {
    /// Name of the active production scene. Any string is legal; only the
    /// two known scene names are represented on the surface.
    pub current_scene: String,
    /// True iff the session is actively recording.
    pub recording: bool,
}

/// The mathematical value of a [`Snapshot`]: the scene name as a character
/// sequence, and the recording flag.
pub struct SnapshotModel {
    pub scene: Seq<char>,
    pub recording: bool,
}

impl View for Snapshot {
    type V = SnapshotModel;

    open spec fn view(&self) -> SnapshotModel {
        SnapshotModel { scene: self.current_scene@, recording: self.recording }
    }
}

/// The first of the two known scene names.
pub open spec fn coding_scene() -> Seq<char> {
    "Coding"@
}

/// The second of the two known scene names.
pub open spec fn talking_scene() -> Seq<char> {
    "Talking"@
}

/// A scene name is known iff it is one of the two names the surface and the
/// toggle action recognize. Other names are legal session states but are
/// neither displayed nor toggled from.
pub open spec fn is_known_scene(s: Seq<char>) -> bool {
    s == coding_scene() || s == talking_scene()
}

/// The scene a toggle press switches to: the other of the two known names.
pub open spec fn toggled_scene(s: Seq<char>) -> Seq<char>
    recommends
        is_known_scene(s),
{
    if s == coding_scene() {
        talking_scene()
    } else {
        coding_scene()
    }
}

impl Snapshot {
    /// Combine the two independent session reads into one snapshot.
    pub fn new(current_scene: String, recording: bool) -> (s: Snapshot)
        ensures
            s@.scene == current_scene@,
            s@.recording == recording,
    {
        Snapshot { current_scene, recording }
    }
}

/// Whether a scene name equals the given name, as a test on the views.
pub fn scene_is(s: &String, name: &str) -> (r: bool)
    ensures
        r == (s@ == name@),
{
    let owned: String = name.to_owned();
    *s == owned
}

} // verus!
