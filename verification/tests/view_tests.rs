use side_by_side_diff::engine::EngineState;
use side_by_side_diff::view::{
    ActAsTarget, CapabilityKind, FocusedPane, SideBySideDiffView,
};

fn named_view() -> SideBySideDiffView {
    SideBySideDiffView::new(
        Some("a.txt".to_string()),
        Some("dir/a.txt".to_string()),
        Some("b.txt".to_string()),
        Some("dir/b.txt".to_string()),
    )
}

#[test]
fn left_pane_is_active_immediately_after_construction() {
    let v = named_view();
    assert_eq!(v.focused_pane, FocusedPane::Left);
    assert_eq!(v.engine.state, EngineState::Idle);
}

#[test]
fn open_fails_as_a_whole_when_the_initial_diff_fails() {
    let v = SideBySideDiffView::open(false, None, None, None, None);
    assert!(v.is_none());
    let v = SideBySideDiffView::open(true, None, None, None, None);
    assert!(v.is_some());
    assert_eq!(v.unwrap().focused_pane, FocusedPane::Left);
}

#[test]
fn switch_to_right_routes_the_editor_capability_right() {
    let mut v = named_view();
    v.switch_to_right_pane();
    assert_eq!(v.focused_pane, FocusedPane::Right);
    assert_eq!(
        v.act_as_type(CapabilityKind::EditorSurface),
        Some(ActAsTarget::Surface(FocusedPane::Right))
    );
}

#[test]
fn toggle_from_right_yields_left() {
    let mut v = named_view();
    v.switch_to_right_pane();
    v.toggle_pane();
    assert_eq!(v.focused_pane, FocusedPane::Left);
    v.toggle_pane();
    assert_eq!(v.focused_pane, FocusedPane::Right);
}

#[test]
fn capability_resolution_is_a_closed_dispatch() {
    let v = named_view();
    assert_eq!(v.act_as_type(CapabilityKind::DiffView), Some(ActAsTarget::WholeView));
    assert_eq!(
        v.act_as_type(CapabilityKind::EditorSurface),
        Some(ActAsTarget::Surface(FocusedPane::Left))
    );
    assert_eq!(v.act_as_type(CapabilityKind::Other), None);
}

#[test]
fn focus_search_and_breadcrumbs_follow_the_active_pane() {
    let mut v = named_view();
    assert_eq!(v.focus_handle(), FocusedPane::Left);
    assert_eq!(v.as_searchable(), FocusedPane::Left);
    assert_eq!(v.breadcrumbs(), FocusedPane::Left);
    v.switch_to_right_pane();
    assert_eq!(v.focus_handle(), FocusedPane::Right);
    assert_eq!(v.as_searchable(), FocusedPane::Right);
    assert_eq!(v.breadcrumbs(), FocusedPane::Right);
}

#[test]
fn save_always_targets_the_new_document_surface() {
    let mut v = named_view();
    v.switch_to_left_pane();
    assert_eq!(v.save(), FocusedPane::Right);
    assert_eq!(v.can_save(), FocusedPane::Right);
    v.switch_to_right_pane();
    assert_eq!(v.save(), FocusedPane::Right);
}

#[test]
fn navigation_always_targets_the_new_document_surface() {
    let mut v = named_view();
    v.switch_to_left_pane();
    assert_eq!(v.navigate(), FocusedPane::Right);
    assert_eq!(v.set_nav_history(), FocusedPane::Right);
}

#[test]
fn a_diff_view_is_not_a_singleton_item() {
    let v = named_view();
    assert!(!v.is_singleton());
}

#[test]
fn whole_view_operations_fan_out_to_both_surfaces_left_first() {
    let v = named_view();
    assert_eq!(v.both_surfaces(), vec![FocusedPane::Left, FocusedPane::Right]);
}

#[test]
fn telemetry_names_the_view_kind() {
    let v = named_view();
    assert_eq!(v.telemetry_event_text(), "Side-by-Side Diff View Opened");
}

#[test]
fn tab_label_combines_both_file_names() {
    let v = named_view();
    assert_eq!(v.tab_content_text(), "a.txt ↔ b.txt");
}

#[test]
fn tab_label_uses_the_placeholder_for_a_pathless_document() {
    let v = SideBySideDiffView::new(None, None, Some("b.txt".to_string()), None);
    assert_eq!(v.tab_content_text(), "untitled ↔ b.txt");
    let v = SideBySideDiffView::new(Some("a.txt".to_string()), None, None, None);
    assert_eq!(v.tab_content_text(), "a.txt ↔ untitled");
}

#[test]
fn tooltip_combines_both_full_paths() {
    let v = named_view();
    assert_eq!(v.tab_tooltip_text(), "dir/a.txt ↔ dir/b.txt");
    let v = SideBySideDiffView::new(Some("a.txt".to_string()), None, None, None);
    assert_eq!(v.tab_tooltip_text(), "untitled ↔ untitled");
}
