use robot_editor::mode::BuildToolMode;
use robot_editor::placer::Placer;
use robot_editor::session::{
    placer_editor_ui, EditorPanel, PaletteEntry, PlacedPart, PlacementSession,
};

fn entry(asset: u64, path: &str, clicked: bool, hovered: bool) -> PaletteEntry {
    PaletteEntry { asset, path: path.to_string(), clicked, hovered }
}

#[test]
fn hover_a_then_b_then_end() {
    let mut s = PlacementSession::new(BuildToolMode::GizmoMode);
    let c = s.hover(1);
    assert_eq!(s.displays().len(), 1);
    assert_eq!(c.spawn, Some(1));
    assert!(c.despawn.is_empty());
    let c = s.hover(2);
    assert_eq!(s.displays().len(), 1);
    assert_eq!(s.displays(), &vec![2]);
    assert_eq!(c.despawn, vec![1]);
    assert_eq!(c.spawn, Some(2));
    let c = s.end_hover();
    assert_eq!(s.displays().len(), 0);
    assert_eq!(c.despawn, vec![2]);
    assert_eq!(c.spawn, None);
}

#[test]
fn hovering_same_entry_keeps_display() {
    let mut s = PlacementSession::new(BuildToolMode::GizmoMode);
    s.hover(7);
    let c = s.hover(7);
    assert!(c.despawn.is_empty());
    assert_eq!(c.spawn, None);
    assert_eq!(s.displays(), &vec![7]);
}

#[test]
fn many_hovers_keep_at_most_one_display() {
    let mut s = PlacementSession::new(BuildToolMode::GizmoMode);
    for a in [3u64, 1, 4, 1, 5, 9, 2, 6] {
        s.hover(a);
        assert!(s.displays().len() <= 1);
    }
    s.end_hover();
    assert!(s.displays().is_empty());
}

#[test]
fn clicks_accumulate_placers() {
    let mut s = PlacementSession::new(BuildToolMode::GizmoMode);
    let p = s.click(1, "root://parts/wheel.glb");
    assert_eq!(p, PlacedPart { asset: 1, placer: Placer::Wheel });
    s.click(2, "root://parts/hull_section.glb");
    s.click(1, "root://parts/wheel.glb");
    assert_eq!(
        s.placers(),
        &vec![
            PlacedPart { asset: 1, placer: Placer::Wheel },
            PlacedPart { asset: 2, placer: Placer::Hull },
            PlacedPart { asset: 1, placer: Placer::Wheel },
        ]
    );
    assert_eq!(s.mode(), BuildToolMode::PlacerMode);
}

#[test]
fn new_session_is_empty() {
    let s = PlacementSession::new(BuildToolMode::EditerMode);
    assert!(s.placers().is_empty());
    assert!(s.displays().is_empty());
    assert_eq!(s.mode(), BuildToolMode::EditerMode);
}

#[test]
fn frame_spawns_clicked_and_previews_first_hovered() {
    let mut s = PlacementSession::new(BuildToolMode::GizmoMode);
    let entries = vec![
        entry(1, "parts/wheel.glb", true, false),
        entry(2, "parts/hull.glb", false, true),
        entry(3, "parts/misc.glb", true, true),
    ];
    let r = s.frame(&entries);
    assert_eq!(
        r.spawned,
        vec![
            PlacedPart { asset: 1, placer: Placer::Wheel },
            PlacedPart { asset: 3, placer: Placer::Hull },
        ]
    );
    assert_eq!(r.display.spawn, Some(2));
    assert_eq!(s.displays(), &vec![2]);
    assert_eq!(s.placers().len(), 2);
    assert_eq!(s.mode(), BuildToolMode::PlacerMode);
}

#[test]
fn frame_without_hover_clears_display() {
    let mut s = PlacementSession::new(BuildToolMode::GizmoMode);
    s.hover(5);
    let r = s.frame(&vec![entry(5, "parts/wheel.glb", false, false)]);
    assert!(r.spawned.is_empty());
    assert_eq!(r.display.despawn, vec![5]);
    assert!(s.displays().is_empty());
    assert_eq!(s.mode(), BuildToolMode::GizmoMode);
}

#[test]
fn editor_panel_placement() {
    assert_eq!(placer_editor_ui(0, true, false), EditorPanel::Hidden);
    assert_eq!(placer_editor_ui(2, false, false), EditorPanel::Hidden);
    assert_eq!(placer_editor_ui(2, true, false), EditorPanel::AtCursor);
    assert_eq!(placer_editor_ui(2, true, true), EditorPanel::InPlace);
}

#[test]
fn set_mode_changes_only_mode() {
    let mut s = PlacementSession::new(BuildToolMode::GizmoMode);
    s.hover(4);
    s.set_mode(BuildToolMode::EditerMode);
    assert_eq!(s.mode(), BuildToolMode::EditerMode);
    assert_eq!(s.displays(), &vec![4]);
    assert!(s.placers().is_empty());
}

#[test]
fn frames_keep_at_most_one_display() {
    let mut s = PlacementSession::new(BuildToolMode::GizmoMode);
    let frames = vec![
        vec![entry(1, "a/wheel.glb", false, true), entry(2, "a/hull.glb", false, false)],
        vec![entry(1, "a/wheel.glb", false, false), entry(2, "a/hull.glb", true, true)],
        vec![entry(1, "a/wheel.glb", false, false), entry(2, "a/hull.glb", false, false)],
    ];
    let mut counts = Vec::new();
    for f in &frames {
        s.frame(f);
        counts.push(s.displays().len());
    }
    assert_eq!(counts, vec![1, 1, 0]);
    assert_eq!(s.placers(), &vec![PlacedPart { asset: 2, placer: Placer::Hull }]);
}
