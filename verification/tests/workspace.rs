use markhola::document::ActiveDocument;
use markhola::footer::footer_texts;
use markhola::workspace::{DocumentWorkspace, WorkspaceOpenResult};

fn doc(workspace: &mut DocumentWorkspace, path: &str) -> ActiveDocument {
    let id = workspace.next_document_id();
    ActiveDocument::open_with_id(
        id,
        path.to_string(),
        path.to_string(),
        format!("# {path}"),
        "file:///tmp/".to_string(),
    )
}

fn three() -> DocumentWorkspace {
    let mut workspace = DocumentWorkspace::new();
    for path in ["/tmp/a.md", "/tmp/b.md", "/tmp/c.md"] {
        let d = doc(&mut workspace, path);
        workspace.open_document(d);
    }
    workspace
}

#[test]
fn a_new_workspace_is_empty() {
    let mut workspace = DocumentWorkspace::new();
    assert!(workspace.active_document().is_none());
    assert_eq!(workspace.active_document_id(), None);
    assert!(workspace.document_ids().is_empty());
    assert!(workspace.active_document_snapshot().is_none());
    assert_eq!(workspace.active_window_title(), None);
    assert!(!workspace.activate_next_document());
    assert_eq!(workspace.next_document_id(), 1);
    assert_eq!(workspace.next_document_id(), 2);
}

#[test]
fn opening_documents_activates_the_newest() {
    let workspace = three();
    assert_eq!(workspace.document_ids(), vec![1, 2, 3]);
    assert_eq!(workspace.active_document_id(), Some(3));
    assert_eq!(workspace.document_count(), 3);
    let tabs = workspace.tab_snapshots();
    assert_eq!(tabs.len(), 3);
    assert!(tabs[2].active);
    assert!(!tabs[0].active);
    assert_eq!(tabs[1].file_name, "b.md");
    assert_eq!(workspace.active_window_title(), Some("c.md - MarkHola".to_string()));
}

#[test]
fn opening_an_open_path_switches_to_its_tab() {
    let mut workspace = three();
    let again = ActiveDocument::open_with_id(
        9,
        "/tmp/a.md".to_string(),
        "/tmp/a.md".to_string(),
        "other".to_string(),
        String::new(),
    );
    assert_eq!(
        workspace.open_document(again),
        WorkspaceOpenResult::ActivatedExisting(1)
    );
    assert_eq!(workspace.active_document_id(), Some(1));
    assert_eq!(workspace.document_ids(), vec![1, 2, 3]);
    assert_eq!(workspace.find_by_path("/tmp/b.md"), Some(2));
    assert_eq!(workspace.find_by_path("/tmp//b.md"), Some(2));
    assert_eq!(workspace.find_by_path("/tmp/z.md"), None);
    assert_eq!(workspace.find_by_path_excluding("/tmp/b.md", 2), None);
    assert_eq!(workspace.find_by_path_excluding("/tmp/b.md", 1), Some(2));
}

#[test]
fn next_and_previous_wrap_around() {
    let mut workspace = three();
    assert!(workspace.activate_next_document());
    assert_eq!(workspace.active_document_id(), Some(1));
    assert!(workspace.activate_previous_document());
    assert_eq!(workspace.active_document_id(), Some(3));
    assert!(workspace.activate_previous_document());
    assert_eq!(workspace.active_document_id(), Some(2));
    assert!(workspace.activate_next_document());
    assert_eq!(workspace.active_document_id(), Some(3));
}

#[test]
fn a_single_tab_does_not_switch() {
    let mut workspace = DocumentWorkspace::new();
    let d = doc(&mut workspace, "/tmp/only.md");
    workspace.open_document(d);
    assert!(!workspace.activate_next_document());
    assert!(!workspace.activate_previous_document());
    assert_eq!(workspace.active_document_id(), Some(1));
}

#[test]
fn closing_tabs_keeps_a_sensible_active_tab() {
    let mut workspace = three();
    assert!(workspace.activate_document(2));
    assert!(!workspace.activate_document(42));

    let closed = workspace.close_document(2).unwrap();
    assert_eq!(closed.id(), 2);
    assert_eq!(workspace.active_document_id(), Some(3));
    assert_eq!(workspace.document_ids(), vec![1, 3]);

    assert!(workspace.close_document(2).is_none());

    workspace.activate_document(1);
    workspace.close_document(3);
    assert_eq!(workspace.active_document_id(), Some(1));

    workspace.close_document(1);
    assert_eq!(workspace.active_document_id(), None);
    assert!(workspace.document_ids().is_empty());
}

#[test]
fn closing_the_last_tab_activates_the_new_last_one() {
    let mut workspace = three();
    workspace.close_document(3);
    assert_eq!(workspace.active_document_id(), Some(2));
}

#[test]
fn other_document_ids_leave_out_the_active_one() {
    let workspace = three();
    assert_eq!(workspace.other_document_ids(2), vec![1, 3]);
    assert_eq!(workspace.other_document_ids(7), vec![1, 2, 3]);
}

#[test]
fn documents_can_be_changed_through_the_workspace() {
    let mut workspace = three();
    workspace
        .document_by_id_mut(1)
        .unwrap()
        .update_markdown("edited".to_string());
    assert!(workspace.document_by_id_mut(99).is_none());
    assert!(workspace.tab_snapshots()[0].dirty);
    workspace
        .active_document_mut()
        .unwrap()
        .toggle_mode();
    let snapshot = workspace.active_document_snapshot().unwrap();
    assert_eq!(snapshot.document_id, 3);
    assert_eq!(snapshot.mode_label, "Writable");
    assert_eq!(workspace.document_at(0).markdown(), "edited");
}

#[test]
fn the_footer_shows_the_active_document() {
    let empty = DocumentWorkspace::new();
    let texts = footer_texts(&empty, "Ready.");
    assert_eq!(texts.path, "Path: No file opened");
    assert_eq!(texts.words, "");
    assert_eq!(texts.status, "Status Ready.");
    assert!(!texts.show_details);

    let workspace = three();
    let texts = footer_texts(&workspace, "Saved.");
    assert_eq!(texts.path, "Path: /tmp/c.md");
    assert_eq!(texts.words, "Words 2");
    assert_eq!(texts.lines, "Lines 1");
    assert_eq!(texts.mode, "Mode Readonly");
    assert!(texts.show_details);
}

#[test]
fn pending_changes_are_settled_in_the_order_given() {
    let mut workspace = three();
    assert!(workspace.can_issue_document_id());
    let ids = workspace.document_ids();
    assert_eq!(workspace.next_pending_document(&ids, 0), None);
    let b = ids[1];
    let c = ids[2];
    workspace.document_by_id_mut(c).unwrap().update_markdown("changed".to_string());
    workspace.document_by_id_mut(b).unwrap().update_markdown("changed".to_string());
    assert_eq!(workspace.next_pending_document(&ids, 0), Some(1));
    assert_eq!(workspace.next_pending_document(&ids, 2), Some(2));
    assert_eq!(workspace.next_pending_document(&ids, 3), None);
    let reversed = vec![c, 99, b];
    assert_eq!(workspace.next_pending_document(&reversed, 0), Some(0));
    assert_eq!(workspace.next_pending_document(&reversed, 1), Some(2));
}
