use deck_sync::snapshot::{scene_is, Snapshot};

#[test]
fn snapshot_keeps_both_reads() {
    let snap = Snapshot::new(String::from("Talking"), true);
    assert_eq!(snap.current_scene, String::from("Talking"));
    assert!(snap.recording);
}

#[test]
fn scene_is_compares_the_whole_name() {
    assert!(scene_is(&String::from("Coding"), "Coding"));
    assert!(!scene_is(&String::from("Coding"), "Talking"));
    assert!(!scene_is(&String::from("Codin"), "Coding"));
    assert!(!scene_is(&String::from("coding"), "Coding"));
    assert!(!scene_is(&String::from(""), "Coding"));
}
