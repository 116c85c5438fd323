use markhola::actions::{
    activate_document, check_save_in_place, editor_changed, export_status, finish_save_as,
    load_document,
    open_loaded_document, print_status, reload_status_message,
    reload_workspace_documents_from_disk, resolve_document_pending_changes, save_document,
    switch_document, toggle_active_mode, workspace_presentation, DiskRead, PendingChangesAction,
    SaveAsSnapshot, SettleStep, StatusLevel, settle_step, switch_to_open_document,
};
use markhola::assets::new_registry;
use markhola::document::{ActiveDocument, DocumentMode};
use markhola::printing::PrintOutcome;
use markhola::workspace::DocumentWorkspace;

fn reads_for(workspace: &DocumentWorkspace, text: &str) -> Vec<DiskRead> {
    workspace
        .reload_targets()
        .into_iter()
        .map(|t| DiskRead {
            document_id: t.document_id,
            path: t.path,
            outcome: Ok(text.to_string()),
        })
        .collect()
}

#[test]
fn reload_workspace_refreshes_active_document_from_disk() {
    let path = "/tmp/markhola-reload-reload.md".to_string();
    let mut workspace = DocumentWorkspace::new();
    let document = load_document(
        1,
        path.clone(),
        path.clone(),
        Ok("# Before\nold content".to_string()),
    )
    .unwrap();
    workspace.open_document(document);

    let reads = reads_for(&workspace, "# After\nnew content");
    let status = reload_workspace_documents_from_disk(&mut workspace, reads).unwrap();
    let snapshot = workspace.active_document_snapshot().unwrap();

    assert_eq!(status, "Document reloaded.");
    assert_eq!(snapshot.markdown, "# After\nnew content");
    assert!(snapshot.preview_markdown.contains("After"));
    assert!(snapshot.preview_markdown.contains("new content"));
    assert!(!snapshot.dirty);
}

#[test]
fn documents_with_unsaved_changes_are_kept_on_reload() {
    let mut workspace = DocumentWorkspace::new();
    for (id, path) in [(1, "/tmp/a.md"), (2, "/tmp/b.md"), (3, "/tmp/c.md")] {
        let d = load_document(id, path.to_string(), path.to_string(), Ok("text".to_string()))
            .unwrap();
        workspace.open_document(d);
    }
    workspace.document_by_id_mut(1).unwrap().update_markdown("edited".to_string());
    workspace.document_by_id_mut(2).unwrap().update_markdown("edited".to_string());
    let targets = workspace.reload_targets();
    assert_eq!(targets.len(), 1);
    assert_eq!(targets[0].document_id, 3);
    assert_eq!(targets[0].path, "/tmp/c.md");
    assert_eq!(workspace.kept_document_count(), 2);

    let reads = reads_for(&workspace, "fresh");
    let status = reload_workspace_documents_from_disk(&mut workspace, reads).unwrap();
    assert_eq!(status, "Document reloaded. 2 unsaved tabs were kept as-is.");
    assert_eq!(workspace.document_by_id_mut(1).unwrap().markdown(), "edited");
    assert_eq!(workspace.document_by_id_mut(3).unwrap().markdown(), "fresh");
}

#[test]
fn a_failed_read_fails_the_reload() {
    let mut workspace = DocumentWorkspace::new();
    let d = load_document(1, "/tmp/a.md".to_string(), "/tmp/a.md".to_string(), Ok("x".to_string()))
        .unwrap();
    workspace.open_document(d);
    let reads = vec![DiskRead {
        document_id: 1,
        path: "/tmp/a.md".to_string(),
        outcome: Err("Failed to read file: gone".to_string()),
    }];
    assert_eq!(
        reload_workspace_documents_from_disk(&mut workspace, reads),
        Err("Reload failed: /tmp/a.md: Failed to read file: gone".to_string())
    );
    assert_eq!(workspace.active_document().unwrap().markdown(), "x");
}

#[test]
fn reload_messages_count_the_kept_tabs() {
    assert_eq!(reload_status_message(0, 0), "Document reloaded.");
    assert_eq!(reload_status_message(4, 0), "Document reloaded.");
    assert_eq!(
        reload_status_message(1, 1),
        "Document reloaded. One unsaved tab was kept as-is."
    );
    assert_eq!(
        reload_status_message(0, 12),
        "Document reloaded. 12 unsaved tabs were kept as-is."
    );
}

#[test]
fn loading_passes_on_read_and_url_errors() {
    assert_eq!(
        load_document(1, "/tmp/a.md".to_string(), "/tmp/a.md".to_string(), Err("boom".to_string()))
            .err(),
        Some("boom".to_string())
    );
    assert_eq!(
        load_document(1, "rel.md".to_string(), "rel.md".to_string(), Ok(String::new())).err(),
        Some("Document directory cannot be converted to a file URL.".to_string())
    );
    let d = load_document(5, "/tmp/x/y.md".to_string(), "/tmp/x/y.md".to_string(), Ok("t".to_string()))
        .unwrap();
    assert_eq!(d.id(), 5);
    assert_eq!(d.base_url(), "file:///tmp/x/");
    assert_eq!(d.mode(), DocumentMode::Readonly);
}

#[test]
fn saving_marks_the_document_saved_only_when_written() {
    let mut document = ActiveDocument::open_with_id(
        1,
        "/tmp/demo.md".to_string(),
        "/tmp/demo.md".to_string(),
        "a".to_string(),
        String::new(),
    );
    document.update_markdown("b".to_string());
    assert!(check_save_in_place(&document).is_ok());
    assert_eq!(
        save_document(&mut document, Err("Failed to replace file: denied".to_string())),
        Err("Failed to replace file: denied".to_string())
    );
    assert!(document.is_dirty());
    assert_eq!(save_document(&mut document, Ok(())), Ok(()));
    assert!(!document.is_dirty());

    let mut draft = ActiveDocument::new_blank_with_id(2, "/tmp");
    let refused = "Draft documents must choose a save path first.".to_string();
    assert_eq!(check_save_in_place(&draft), Err(refused.clone()));
    assert_eq!(save_document(&mut draft, Ok(())), Err(refused));
    assert!(draft.is_dirty());
}

#[test]
fn save_as_starts_in_the_directory_of_the_document() {
    let document = ActiveDocument::open_with_id(
        4,
        "/tmp/notes/a.md".to_string(),
        "/tmp/notes/a.md".to_string(),
        "text".to_string(),
        String::new(),
    );
    let snapshot = SaveAsSnapshot::from_document(&document);
    assert_eq!(snapshot.document_id, 4);
    assert_eq!(snapshot.directory, "/tmp/notes");
    assert_eq!(snapshot.file_name, "a.md");
    assert_eq!(snapshot.markdown, "text");
}

#[test]
fn requests_on_the_workspace_report_their_status() {
    let mut workspace = DocumentWorkspace::new();
    assert_eq!(toggle_active_mode(&mut workspace), None);
    assert!(!editor_changed(&mut workspace, "x".to_string()));
    assert_eq!(switch_document(&mut workspace, true), None);

    for (id, path) in [(1, "/tmp/a.md"), (2, "/tmp/b.md")] {
        let d = load_document(id, path.to_string(), path.to_string(), Ok("t".to_string())).unwrap();
        workspace.open_document(d);
    }
    assert_eq!(toggle_active_mode(&mut workspace), Some("Writable mode enabled."));
    assert!(editor_changed(&mut workspace, "changed".to_string()));
    assert_eq!(toggle_active_mode(&mut workspace), Some("Readonly preview updated."));
    assert_eq!(workspace.active_document().unwrap().preview_markdown(), "changed");
    assert_eq!(switch_document(&mut workspace, true), Some("Switched to next tab."));
    assert_eq!(workspace.active_document_id(), Some(1));
    assert_eq!(switch_document(&mut workspace, false), Some("Switched to previous tab."));
    assert_eq!(activate_document(&mut workspace, 1), Ok("Document switched."));
    assert_eq!(activate_document(&mut workspace, 9), Err("Document tab no longer exists."));

    let presentation = workspace_presentation(&workspace, "Saved.");
    assert_eq!(presentation.tabs.len(), 2);
    assert_eq!(presentation.status_message, "Saved.");
    assert_eq!(presentation.active_document.unwrap().document_id, 1);
}

#[test]
fn opening_a_loaded_document_enables_its_assets() {
    let mut workspace = DocumentWorkspace::new();
    let mut registry = new_registry();
    let d = load_document(1, "/tmp/a.md".to_string(), "/tmp/a.md".to_string(), Ok("t".to_string()))
        .unwrap();
    assert_eq!(
        open_loaded_document(&mut workspace, &mut registry, d, Ok("/tmp".to_string())),
        Ok(("Document loaded.", true))
    );
    assert_eq!(registry.root_of(1), Some("/tmp".to_string()));

    let again = load_document(2, "/tmp/a.md".to_string(), "/tmp/a.md".to_string(), Ok("t".to_string()))
        .unwrap();
    assert_eq!(
        open_loaded_document(&mut workspace, &mut registry, again, Ok("/tmp".to_string())),
        Ok(("Document already opened. Switched to tab.", false))
    );
    assert_eq!(registry.root_of(2), None);

    let other = load_document(3, "/tmp/b.md".to_string(), "/tmp/b.md".to_string(), Ok("t".to_string()))
        .unwrap();
    assert_eq!(
        open_loaded_document(&mut workspace, &mut registry, other, Err("denied".to_string())),
        Err("Failed to enable local assets: denied".to_string())
    );
    assert_eq!(workspace.document_ids(), vec![1]);
    assert_eq!(workspace.active_document_id(), Some(1));
}

#[test]
fn export_and_print_outcomes_become_status_lines() {
    let exported = export_status("PDF", Some(Ok(Some("/tmp/a.pdf".to_string()))));
    assert_eq!(exported.message, "Exported PDF: /tmp/a.pdf");
    assert_eq!(exported.level, StatusLevel::Info);
    assert_eq!(exported.action_path, Some("/tmp/a.pdf".to_string()));
    assert_eq!(exported.action_label, Some("Open"));

    let cancelled = export_status("HTML", Some(Ok(None)));
    assert_eq!(cancelled.message, "Export cancelled.");
    assert_eq!(cancelled.action_path, None);

    let failed = export_status("HTML", Some(Err("Failed to write HTML file: x".to_string())));
    assert_eq!(failed.level, StatusLevel::Error);
    assert_eq!(failed.message, "Failed to write HTML file: x");

    let nothing = export_status("PDF", None);
    assert_eq!(nothing.message, "No document opened.");
    assert_eq!(nothing.level, StatusLevel::Error);

    assert_eq!(print_status(Some(Ok(PrintOutcome::Started))).message, "Print panel opened.");
    assert_eq!(print_status(Some(Ok(PrintOutcome::Cancelled))).message, "Print cancelled.");
    assert_eq!(print_status(None).message, "No document opened.");
    assert_eq!(print_status(Some(Err("no".to_string()))).level, StatusLevel::Error);
}

#[test]
fn a_read_for_a_document_with_unsaved_changes_is_ignored() {
    let mut workspace = DocumentWorkspace::new();
    let d = load_document(1, "/tmp/a.md".to_string(), "/tmp/a.md".to_string(), Ok("x".to_string()))
        .unwrap();
    workspace.open_document(d);
    workspace.active_document_mut().unwrap().update_markdown("mine".to_string());
    let reads = vec![DiskRead {
        document_id: 1,
        path: "/tmp/a.md".to_string(),
        outcome: Ok("theirs".to_string()),
    }];
    assert_eq!(
        reload_workspace_documents_from_disk(&mut workspace, reads),
        Ok("Document reloaded. One unsaved tab was kept as-is.".to_string())
    );
    assert_eq!(workspace.active_document().unwrap().markdown(), "mine");
    assert!(workspace.active_document().unwrap().is_dirty());
}

#[test]
fn save_as_moves_the_active_document_to_its_new_path() {
    let mut workspace = DocumentWorkspace::new();
    assert_eq!(
        finish_save_as(&mut workspace, "/tmp/x.md".to_string(), "/tmp/x.md".to_string(), Ok(())),
        Err("No document to save.".to_string())
    );
    let id = workspace.next_document_id();
    workspace.open_document(ActiveDocument::new_blank_with_id(id, "/tmp"));
    workspace.active_document_mut().unwrap().update_markdown("body".to_string());
    assert_eq!(
        finish_save_as(&mut workspace, "/tmp/x.md".to_string(), "/tmp/x.md".to_string(), Err("denied".to_string())),
        Err("denied".to_string())
    );
    assert!(workspace.active_document().unwrap().is_draft());
    assert_eq!(
        finish_save_as(&mut workspace, "x.md".to_string(), "x.md".to_string(), Ok(())),
        Err("Document directory cannot be converted to a file URL.".to_string())
    );
    assert_eq!(
        finish_save_as(&mut workspace, "/tmp/notes/x.md".to_string(), "/tmp/notes/x.md".to_string(), Ok(())),
        Ok("Saved to new path.")
    );
    let document = workspace.active_document().unwrap();
    assert!(!document.is_draft());
    assert!(!document.is_dirty());
    assert_eq!(document.file_name(), "x.md");
    assert_eq!(document.base_url(), "file:///tmp/notes/");
    assert_eq!(document.markdown(), "body");
}

#[test]
fn unsaved_changes_are_settled_before_a_tab_closes() {
    let mut clean = ActiveDocument::open_with_id(
        1,
        "/tmp/a.md".to_string(),
        "/tmp/a.md".to_string(),
        "a".to_string(),
        String::new(),
    );
    assert!(resolve_document_pending_changes(&mut clean, PendingChangesAction::Cancel, Ok(())).is_ok());

    let mut edited = ActiveDocument::open_with_id(
        2,
        "/tmp/b.md".to_string(),
        "/tmp/b.md".to_string(),
        "b".to_string(),
        String::new(),
    );
    edited.update_markdown("b2".to_string());
    let cancelled = resolve_document_pending_changes(&mut edited, PendingChangesAction::Cancel, Ok(()))
        .err()
        .unwrap();
    assert_eq!(cancelled.message, "Action cancelled.");
    assert_eq!(cancelled.level, StatusLevel::Info);
    assert!(edited.is_dirty());

    let failed = resolve_document_pending_changes(
        &mut edited,
        PendingChangesAction::Save,
        Err("Failed to replace file: busy".to_string()),
    )
    .err()
    .unwrap();
    assert_eq!(failed.message, "Failed to replace file: busy");
    assert_eq!(failed.level, StatusLevel::Error);

    assert!(resolve_document_pending_changes(&mut edited, PendingChangesAction::Discard, Ok(())).is_ok());
    assert!(edited.is_dirty());
    assert!(resolve_document_pending_changes(&mut edited, PendingChangesAction::Save, Ok(())).is_ok());
    assert!(!edited.is_dirty());
}

#[test]
fn a_path_without_a_directory_has_no_base_url() {
    assert_eq!(
        load_document(1, "/".to_string(), "/".to_string(), Ok(String::new())).err(),
        Some("Document path does not have a parent directory.".to_string())
    );
}

fn opened(workspace: &mut DocumentWorkspace, path: &str) -> u64 {
    let id = workspace.next_document_id();
    let d = load_document(id, path.to_string(), path.to_string(), Ok("t".to_string())).unwrap();
    workspace.open_document(d);
    id
}

#[test]
fn a_file_already_open_is_switched_to() {
    let mut workspace = DocumentWorkspace::new();
    let a = opened(&mut workspace, "/tmp/a.md");
    opened(&mut workspace, "/tmp/b.md");
    assert_eq!(
        switch_to_open_document(&mut workspace, "/tmp/a.md"),
        Some("Document already opened. Switched to tab.")
    );
    assert_eq!(workspace.active_document_id(), Some(a));
    assert_eq!(switch_to_open_document(&mut workspace, "/tmp/c.md"), None);
    assert_eq!(workspace.active_document_id(), Some(a));
}

#[test]
fn settling_asks_in_order_and_stops_at_a_refusal() {
    let mut workspace = DocumentWorkspace::new();
    let a = opened(&mut workspace, "/tmp/a.md");
    let b = opened(&mut workspace, "/tmp/b.md");
    let c = opened(&mut workspace, "/tmp/c.md");
    for id in [a, c] {
        workspace.document_by_id_mut(id).unwrap().update_markdown("changed".to_string());
    }
    let ids = vec![a, b, c];
    assert_eq!(settle_step(&workspace, &ids, 0, true), SettleStep::Ask(0));
    assert_eq!(settle_step(&workspace, &ids, 1, true), SettleStep::Ask(2));
    assert_eq!(settle_step(&workspace, &ids, 3, true), SettleStep::Finished(true));
    assert_eq!(settle_step(&workspace, &ids, 1, false), SettleStep::Finished(false));
}
