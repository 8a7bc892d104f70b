//! Rendering decisions: which icon goes to which button slot for a given
//! snapshot.
//!
//! The surface has two managed slots. Slot 1 shows a scene indicator and is
//! written only when the current scene is one of the two known names; an
//! unknown scene leaves slot 1 untouched. Slot 2 shows a recording
//! indicator and is always written. The decision is returned as a plan, a
//! sequence of slot writes in slot order, for the surrounding program to
//! carry out on the device.

use crate::snapshot::{
    coding_scene, is_known_scene, scene_is, Snapshot, SnapshotModel,
};
use vstd::prelude::*;

verus! {

/// The four logical keys of the icon set, loaded once at startup.
#[derive(Clone, Copy, Debug, PartialEq, Eq, Structural)]
pub enum IconKey {
    /// Scene indicator for the first known scene.
    CodingScene,
    /// Scene indicator for the second known scene.
    TalkingScene,
    /// Recording indicator shown while the session records.
    StartRecording,
    /// Recording indicator shown while the session is not recording.
    StopRecording,
}

/// One image write the renderer asks for: this icon to this button slot.
#[derive(Clone, Copy, Debug, PartialEq, Eq, Structural)]
pub struct SlotWrite {
    pub slot: u8,
    pub icon: IconKey,
}

/// The button slot that shows the scene indicator.
pub const SCENE_SLOT: u8 = 1;

/// The button slot that shows the recording indicator.
pub const RECORDING_SLOT: u8 = 2;

/// The icon that represents a known scene.
pub open spec fn scene_icon(s: Seq<char>) -> IconKey
    recommends
        is_known_scene(s),
{
    if s == coding_scene() {
        IconKey::CodingScene
    } else {
        IconKey::TalkingScene
    }
}

/// The icon that represents the recording flag.
pub open spec fn recording_icon(active: bool) -> IconKey {
    if active {
        IconKey::StartRecording
    } else {
        IconKey::StopRecording
    }
}

/// The writes a snapshot calls for, in slot order: a scene write to slot 1
/// only when the scene is known, then always a recording write to slot 2.
pub open spec fn planned_writes(snap: SnapshotModel) -> Seq<SlotWrite> {
    let recording_write = seq![
        SlotWrite { slot: RECORDING_SLOT, icon: recording_icon(snap.recording) },
    ];
    if is_known_scene(snap.scene) {
        seq![SlotWrite { slot: SCENE_SLOT, icon: scene_icon(snap.scene) }] + recording_write
    } else {
        recording_write
    }
}

/// Decide the image writes that bring the surface in line with a snapshot.
///
/// The result depends on the snapshot alone; no hidden state enters the
/// decision.
pub fn render_plan(snap: &Snapshot) -> (writes: Vec<SlotWrite>)
    ensures
        writes@ == planned_writes(snap@),
{
    let mut writes: Vec<SlotWrite> = Vec::new();
    if scene_is(&snap.current_scene, "Coding") {
        writes.push(SlotWrite { slot: SCENE_SLOT, icon: IconKey::CodingScene });
    } else if scene_is(&snap.current_scene, "Talking") {
        writes.push(SlotWrite { slot: SCENE_SLOT, icon: IconKey::TalkingScene });
    }
    let recording_indicator = if snap.recording {
        IconKey::StartRecording
    } else {
        IconKey::StopRecording
    };
    writes.push(SlotWrite { slot: RECORDING_SLOT, icon: recording_indicator });
    proof {
        assert(writes@ =~= planned_writes(snap@));
    }
    writes
}

/// Rendering is idempotent: the write plan is a function of the snapshot
/// alone, so any two renderings of the same snapshot produce the same
/// writes.
pub proof fn lemma_render_idempotent(
    snap: SnapshotModel,
    first: Seq<SlotWrite>,
    second: Seq<SlotWrite>,
)
    requires
        first == planned_writes(snap),
        second == planned_writes(snap),
    ensures
        first == second,
{
}

/// For a snapshot whose scene is known, the plan writes exactly the icon of
/// that scene to slot 1 and exactly the icon of the recording flag to slot
/// 2, and nothing else.
pub proof fn lemma_render_known_scene(snap: SnapshotModel)
    requires
        is_known_scene(snap.scene),
    ensures
        planned_writes(snap).len() == 2,
        planned_writes(snap)[0] == (SlotWrite { slot: SCENE_SLOT, icon: scene_icon(snap.scene) }),
        planned_writes(snap)[1] == (SlotWrite {
            slot: RECORDING_SLOT,
            icon: recording_icon(snap.recording),
        }),
{
}

/// For a snapshot whose scene is not known, the plan touches slot 1 not at
/// all and still writes the icon of the recording flag to slot 2.
pub proof fn lemma_render_unknown_scene(snap: SnapshotModel)
    requires
        !is_known_scene(snap.scene),
    ensures
        planned_writes(snap).len() == 1,
        planned_writes(snap)[0] == (SlotWrite {
            slot: RECORDING_SLOT,
            icon: recording_icon(snap.recording),
        }),
        forall|i: int|
            0 <= i < planned_writes(snap).len() ==> (#[trigger] planned_writes(snap)[i]).slot
                != SCENE_SLOT,
{
}

} // verus!
