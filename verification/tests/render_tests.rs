use deck_sync::render::{render_plan, IconKey, SlotWrite, RECORDING_SLOT, SCENE_SLOT};
use deck_sync::snapshot::Snapshot;

#[test]
fn render_coding_not_recording() {
    let snap = Snapshot::new(String::from("Coding"), false);
    let writes = render_plan(&snap);
    assert_eq!(
        writes,
        vec![
            SlotWrite { slot: SCENE_SLOT, icon: IconKey::CodingScene },
            SlotWrite { slot: RECORDING_SLOT, icon: IconKey::StopRecording },
        ]
    );
}

#[test]
fn render_talking_recording() {
    let snap = Snapshot::new(String::from("Talking"), true);
    let writes = render_plan(&snap);
    assert_eq!(
        writes,
        vec![
            SlotWrite { slot: SCENE_SLOT, icon: IconKey::TalkingScene },
            SlotWrite { slot: RECORDING_SLOT, icon: IconKey::StartRecording },
        ]
    );
}

#[test]
fn render_unknown_scene_skips_scene_slot() {
    let snap = Snapshot::new(String::from("Lobby"), true);
    let writes = render_plan(&snap);
    assert_eq!(
        writes,
        vec![SlotWrite { slot: RECORDING_SLOT, icon: IconKey::StartRecording }]
    );
    assert!(writes.iter().all(|w| w.slot != SCENE_SLOT));
}

#[test]
fn render_unknown_scene_still_writes_recording() {
    let snap = Snapshot::new(String::from(""), false);
    let writes = render_plan(&snap);
    assert_eq!(
        writes,
        vec![SlotWrite { slot: RECORDING_SLOT, icon: IconKey::StopRecording }]
    );
}

#[test]
fn render_same_snapshot_twice_is_idempotent() {
    let snap = Snapshot::new(String::from("Coding"), true);
    let first = render_plan(&snap);
    let second = render_plan(&snap);
    assert_eq!(first, second);
    let snap = Snapshot::new(String::from("Backstage"), false);
    let first = render_plan(&snap);
    let second = render_plan(&snap);
    assert_eq!(first, second);
}
