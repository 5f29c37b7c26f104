//! Tests for the asset pipeline: reconciliation, the session, and the list
//! presenter.

use model_viewer::presenter::{
    ButtonColor, DropdownGlyph, ListPresenter, PointerInteraction, RowVisibility, ScrollUnit,
    file_stem,
};
use model_viewer::reconcile::{AssetEvent, AssetEventKind, LoadingPhase, Reconciler};
use model_viewer::session::{
    FolderLoadState, FolderStatusAction, ModelEntry, Session, folder_status_action,
};

fn added(id: u64) -> AssetEvent {
    AssetEvent { kind: AssetEventKind::Added, id }
}

fn entry(id: u64, path: &str) -> ModelEntry {
    ModelEntry { id, path: Some(path.as_bytes().to_vec()) }
}

#[test]
fn event_before_resolution_is_buffered() {
    let mut r = Reconciler::new();
    let out = r.observe(added(7));
    assert!(out.is_empty());
    assert_eq!(r.phase, LoadingPhase::Unloaded);
    assert_eq!(r.pending.len(), 1);
    assert!(r.registry.is_empty());
}

#[test]
fn resolution_drains_buffer_in_arrival_order() {
    let mut r = Reconciler::new();
    r.observe(added(2));
    r.observe(added(1));
    let out = r.resolve(vec![1, 2, 3]);
    assert_eq!(out, vec![2, 1]);
    assert_eq!(r.registry, vec![2, 1]);
    assert!(r.pending.is_empty());
    assert_eq!(r.phase, LoadingPhase::Loaded);
}

#[test]
fn id_arrives_once_whether_before_or_after_resolution() {
    // The same valid id, observed both before and after resolution, is
    // registered exactly once.
    let mut r = Reconciler::new();
    r.observe(added(5));
    let out = r.resolve(vec![5]);
    assert_eq!(out, vec![5]);
    let out = r.observe(added(5));
    assert!(out.is_empty());
    assert_eq!(r.registry, vec![5]);
}

#[test]
fn reobserving_registered_id_is_noop() {
    let mut r = Reconciler::new();
    r.resolve(vec![4]);
    let first = r.observe(added(4));
    assert_eq!(first, vec![4]);
    let len_before = r.registry.len();
    let again = r.observe(added(4));
    assert!(again.is_empty());
    assert_eq!(r.registry.len(), len_before);
}

#[test]
fn foreign_id_is_discarded_silently() {
    let mut r = Reconciler::new();
    r.resolve(vec![1]);
    let out = r.observe(added(99));
    assert!(out.is_empty());
    assert!(r.registry.is_empty());
}

#[test]
fn modified_and_removed_events_are_ignored() {
    let mut r = Reconciler::new();
    r.resolve(vec![1]);
    let out = r.observe(AssetEvent { kind: AssetEventKind::Modified, id: 1 });
    assert!(out.is_empty());
    let out = r.observe(AssetEvent { kind: AssetEventKind::Removed, id: 1 });
    assert!(out.is_empty());
    assert!(r.registry.is_empty());
}

#[test]
fn end_to_end_listing_a_b() {
    // Listing {A, B}; Added(B) and Added(X) arrive before resolution, X not
    // in the listing; then resolution; then Added(A) live. The registry must
    // read [B, A], X never appears, and exactly two rows materialize.
    let a = 1u64;
    let b = 2u64;
    let x = 99u64;
    let mut s = Session::new();
    s.observe_event(added(b));
    s.observe_event(added(x));
    assert_eq!(s.presenter.rows.len(), 0);
    s.resolve_folder(vec![entry(a, "models/alpha.glb"), entry(b, "models/beta.glb")]);
    s.observe_event(added(a));
    assert_eq!(s.reconciler.registry, vec![b, a]);
    assert_eq!(s.presenter.rows.len(), 2);
    assert_eq!(s.presenter.rows[0].model_id, b);
    assert_eq!(s.presenter.rows[1].model_id, a);
    assert_eq!(s.presenter.rows[0].label.as_deref(), Some("beta".as_bytes()));
    assert_eq!(s.presenter.rows[1].label.as_deref(), Some("alpha".as_bytes()));
}

#[test]
fn session_row_label_unknown_path() {
    let mut s = Session::new();
    s.resolve_folder(vec![ModelEntry { id: 3, path: None }]);
    s.observe_event(added(3));
    assert_eq!(s.presenter.rows.len(), 1);
    assert!(s.presenter.rows[0].label.is_none());
}

#[test]
fn folder_status_drives_state_machine() {
    assert_eq!(
        folder_status_action(LoadingPhase::Unloaded, FolderLoadState::Loading),
        FolderStatusAction::KeepWaiting
    );
    assert_eq!(
        folder_status_action(LoadingPhase::Unloaded, FolderLoadState::Loaded),
        FolderStatusAction::ResolveNow
    );
    assert_eq!(
        folder_status_action(LoadingPhase::Loaded, FolderLoadState::Loaded),
        FolderStatusAction::KeepWaiting
    );
    assert_eq!(
        folder_status_action(LoadingPhase::Unloaded, FolderLoadState::Failed),
        FolderStatusAction::AbortSession
    );
    assert_eq!(
        folder_status_action(LoadingPhase::Loaded, FolderLoadState::Failed),
        FolderStatusAction::AbortSession
    );
}

#[test]
fn file_stem_cuts_directory_and_extension() {
    assert_eq!(file_stem(&b"models/chair.glb".to_vec()), b"chair".to_vec());
    assert_eq!(file_stem(&b"chair".to_vec()), b"chair".to_vec());
    assert_eq!(file_stem(&b"a.tar.gz".to_vec()), b"a.tar".to_vec());
    assert_eq!(file_stem(&b"models/.hidden".to_vec()), b".hidden".to_vec());
    assert_eq!(file_stem(&b"dir.v2/plain".to_vec()), b"plain".to_vec());
    assert_eq!(file_stem(&b"".to_vec()), b"".to_vec());
}

#[test]
fn dropdown_press_toggles_rows_and_glyph() {
    let mut p = ListPresenter::new();
    assert!(p.expanded);
    let fb = p.dropdown_interact(PointerInteraction::Pressed);
    assert!(!p.expanded);
    assert_eq!(fb.color, ButtonColor::Pressed);
    assert_eq!(fb.glyph, DropdownGlyph::Collapsed);
    assert_eq!(fb.visibility, RowVisibility::Hidden);
    let fb = p.dropdown_interact(PointerInteraction::Pressed);
    assert!(p.expanded);
    assert_eq!(fb.glyph, DropdownGlyph::Expanded);
    assert_eq!(fb.visibility, RowVisibility::Shown);
}

#[test]
fn dropdown_hover_only_tints() {
    let mut p = ListPresenter::new();
    let fb = p.dropdown_interact(PointerInteraction::Hovered);
    assert!(p.expanded);
    assert_eq!(fb.color, ButtonColor::Hovered);
    assert_eq!(fb.visibility, RowVisibility::Shown);
    let fb = p.dropdown_interact(PointerInteraction::Idle);
    assert_eq!(fb.color, ButtonColor::Normal);
}

#[test]
fn scroll_clamps_to_content_overflow() {
    // Content 500 px in a 200 px container: the offset may reach -300 px
    // and no further. All quantities in thousandths of a pixel.
    let mut p = ListPresenter::new();
    p.scroll(ScrollUnit::Pixel, -100_000, 200_000, 500_000);
    assert_eq!(p.scroll, -100_000);
    p.scroll(ScrollUnit::Pixel, -500_000, 200_000, 500_000);
    assert_eq!(p.scroll, -300_000);
    p.scroll(ScrollUnit::Pixel, 50_000, 200_000, 500_000);
    assert_eq!(p.scroll, -250_000);
    p.scroll(ScrollUnit::Pixel, 900_000, 200_000, 500_000);
    assert_eq!(p.scroll, 0);
}

#[test]
fn scroll_pinned_when_content_fits() {
    // Content shorter than the container: the offset stays 0 after any
    // deltas.
    let mut p = ListPresenter::new();
    p.scroll(ScrollUnit::Pixel, -250_000, 400_000, 100_000);
    assert_eq!(p.scroll, 0);
    p.scroll(ScrollUnit::Line, -3_000, 400_000, 100_000);
    assert_eq!(p.scroll, 0);
    p.scroll(ScrollUnit::Pixel, 75_000, 400_000, 100_000);
    assert_eq!(p.scroll, 0);
}

#[test]
fn scroll_line_unit_counts_twenty_pixels_per_notch() {
    // One notch down: -1 line = -20 px against 100 px of overflow.
    let mut p = ListPresenter::new();
    p.scroll(ScrollUnit::Line, -1_000, 200_000, 300_000);
    assert_eq!(p.scroll, -20_000);
    p.scroll(ScrollUnit::Line, -1_000_000, 200_000, 300_000);
    assert_eq!(p.scroll, -100_000);
}

#[test]
fn materialize_appends_rows_in_call_order() {
    let mut p = ListPresenter::new();
    p.materialize(10, Some(b"first".to_vec()));
    p.materialize(11, None);
    assert_eq!(p.rows.len(), 2);
    assert_eq!(p.rows[0].model_id, 10);
    assert_eq!(p.rows[1].model_id, 11);
    assert_eq!(p.rows[0].label.as_deref(), Some("first".as_bytes()));
    assert!(p.rows[1].label.is_none());
}
