use markhola::document::{ActiveDocument, DocumentMode};

fn demo(markdown: &str) -> ActiveDocument {
    ActiveDocument::open_with_id(
        1,
        "/tmp/demo.md".to_string(),
        "/tmp/demo.md".to_string(),
        markdown.to_string(),
        "file:///tmp/".to_string(),
    )
}

#[test]
fn switching_to_readonly_rerenders_preview() {
    let mut document = demo("# Hello\nworld");

    document.toggle_mode();
    assert_eq!(document.mode(), DocumentMode::Writable);

    document.update_markdown("# Updated\ncontent".to_string());
    document.toggle_mode();

    let snapshot = document.snapshot();
    assert_eq!(snapshot.mode, DocumentMode::Readonly);
    assert!(snapshot.preview_markdown.contains("Updated"));
    assert!(snapshot.dirty);
}

#[test]
fn dirty_state_clears_after_save() {
    let mut document = demo("# Hello");

    document.update_markdown("# Hello again".to_string());
    assert!(document.is_dirty());

    document.mark_saved();
    let snapshot = document.snapshot();

    assert!(!snapshot.dirty);
    assert_eq!(snapshot.save_status, "Saved");
    assert!(snapshot.preview_markdown.contains("Hello again"));
}

#[test]
fn reloading_from_disk_replaces_content_and_clears_dirty_state() {
    let mut document = demo("# Hello");

    document.update_markdown("# Unsaved".to_string());
    assert!(document.is_dirty());

    document.reload_from_disk_markdown("# Reloaded".to_string());
    let snapshot = document.snapshot();

    assert_eq!(snapshot.markdown, "# Reloaded");
    assert!(snapshot.preview_markdown.contains("Reloaded"));
    assert!(!snapshot.dirty);
}

#[test]
fn a_writable_document_keeps_its_preview_until_it_is_read_only_again() {
    let mut document = demo("old");
    document.toggle_mode();
    document.update_markdown("new".to_string());
    assert_eq!(document.preview_markdown(), "old");
    document.toggle_mode();
    assert_eq!(document.preview_markdown(), "new");
}

#[test]
fn editing_back_to_the_saved_text_is_not_a_change() {
    let mut document = demo("same");
    document.update_markdown("different".to_string());
    assert!(document.is_dirty());
    document.update_markdown("same".to_string());
    assert!(!document.is_dirty());
}

#[test]
fn an_opened_document_is_read_only_and_clean() {
    let document = demo("# Title\n\nsome words here\n");
    let snapshot = document.snapshot();
    assert_eq!(snapshot.document_id, 1);
    assert_eq!(snapshot.file_name, "demo.md");
    assert_eq!(snapshot.file_path, "/tmp/demo.md");
    assert_eq!(snapshot.base_url, "file:///tmp/");
    assert_eq!(snapshot.word_count, 5);
    assert_eq!(snapshot.line_count, 3);
    assert_eq!(snapshot.mode, DocumentMode::Readonly);
    assert_eq!(snapshot.mode_label, "Readonly");
    assert_eq!(snapshot.save_status, "Saved");
    assert!(!document.is_draft());
    assert_eq!(document.window_title(), "demo.md - MarkHola");
    assert_eq!(document.suggested_pdf_export_path(), "/tmp/demo.pdf");
    assert_eq!(document.canonical_path(), "/tmp/demo.md");
    assert_eq!(document.markdown(), "# Title\n\nsome words here\n");
}

#[test]
fn a_blank_document_is_an_unsaved_draft() {
    let document = ActiveDocument::new_blank_with_id(7, "/tmp/work");
    assert!(document.is_draft());
    assert!(document.is_dirty());
    assert_eq!(document.file_path(), "/tmp/work/.markhola-draft-7.md");
    assert_eq!(document.file_name(), "Untitled");
    assert_eq!(document.mode(), DocumentMode::Writable);
    assert_eq!(document.base_url(), "file:///tmp/work/");
    let snapshot = document.snapshot();
    assert_eq!(snapshot.file_path, "Unsaved draft");
    assert_eq!(snapshot.save_status, "Unsaved");
    assert_eq!(snapshot.word_count, 0);
    assert_eq!(snapshot.line_count, 0);
    assert_eq!(document.window_title(), "Untitled * - MarkHola");
}

#[test]
fn saving_a_draft_under_a_path_makes_it_a_document() {
    let mut document = ActiveDocument::new_blank_with_id(3, "/tmp");
    document.update_markdown("draft text".to_string());
    document.replace_file_path(
        "/tmp/notes/final.md".to_string(),
        "/private/tmp/notes/final.md".to_string(),
        "file:///tmp/notes/".to_string(),
    );
    assert!(!document.is_draft());
    assert!(!document.is_dirty());
    assert_eq!(document.file_name(), "final.md");
    assert_eq!(document.canonical_path(), "/private/tmp/notes/final.md");
    assert_eq!(document.preview_markdown(), "draft text");
    assert_eq!(document.id(), 3);
    let tab = document.tab_snapshot(true);
    assert_eq!(tab.document_id, 3);
    assert_eq!(tab.file_name, "final.md");
    assert!(!tab.dirty);
    assert!(tab.active);
}

#[test]
fn the_mode_toggles_back_and_forth() {
    assert_eq!(DocumentMode::Readonly.toggle(), DocumentMode::Writable);
    assert_eq!(DocumentMode::Writable.toggle(), DocumentMode::Readonly);
    assert_eq!(DocumentMode::Writable.label(), "Writable");
    assert_eq!(DocumentMode::Readonly.toggle().toggle(), DocumentMode::Readonly);
}

#[test]
fn a_path_without_a_file_name_is_untitled() {
    let document = ActiveDocument::open_with_id(
        2,
        "/".to_string(),
        "/".to_string(),
        String::new(),
        String::new(),
    );
    assert_eq!(document.file_name(), "Untitled");
    assert_eq!(document.suggested_pdf_export_path(), "/document.pdf");
}

#[test]
fn a_draft_stays_unsaved_until_it_gets_a_path() {
    let mut d = ActiveDocument::new_blank_with_id(3, "/tmp");
    assert!(d.is_draft() && d.is_dirty());
    d.update_markdown("text".to_string());
    d.mark_saved();
    d.toggle_mode();
    d.reload_from_disk_markdown(String::new());
    assert!(d.is_draft() && d.is_dirty());
    assert_eq!(d.snapshot().file_path, "Unsaved draft");
    d.replace_file_path("/tmp/n.md".to_string(), "/tmp/n.md".to_string(), "file:///tmp/".to_string());
    assert!(!d.is_draft() && !d.is_dirty());
    assert_eq!(d.snapshot().file_path, "/tmp/n.md");
}
