use markhola::events::EventCounter;
use markhola::logging::{
    debug_log_line, fallback_notice_line, log_event, primary_debug_log_path,
    DEBUG_LOG_FALLBACK_PATH,
};
use markhola::navigation::{navigation_decision, opened_file_path, NavigationDecision};
use markhola::platform::{
    about_footer, browser_shortcut_uses_meta_key, document_subtitle, primary_shortcut_label,
    primary_shortcut_name, ready_status_message, startup_open_requests, Platform,
};
use markhola::resources::{app_theme_candidates, documentation_candidates};
use markhola::text::wide;
use markhola::theme::{
    footer_theme_colors, load_selected_theme, slot_for_theme, theme_for_slot, AppTheme,
    ThemeMenuSlot,
};

#[test]
fn shortcut_texts_name_the_platform_key() {
    assert_eq!(primary_shortcut_name(Platform::MacOs), "Command");
    assert_eq!(primary_shortcut_name(Platform::Other), "Ctrl");
    assert_eq!(primary_shortcut_label(Platform::Other, "S"), "Ctrl+S");
    assert_eq!(
        ready_status_message(Platform::MacOs),
        "Ready. Open a Markdown file or press Command+O."
    );
    assert_eq!(
        document_subtitle(Platform::Other),
        "Use Ctrl+O or drag a Markdown file into the window."
    );
    assert_eq!(
        about_footer(),
        "Built for local Markdown reading and writing on macOS and Windows 11."
    );
    assert!(browser_shortcut_uses_meta_key(Platform::MacOs));
    assert!(!browser_shortcut_uses_meta_key(Platform::Other));
}

#[test]
fn command_line_files_are_opened_in_order() {
    let args: Vec<String> = ["markhola", "--smoke", "/tmp/a.md", "b.md", "--x"]
        .iter()
        .map(|s| s.to_string())
        .collect();
    let mut counter = EventCounter::new();
    counter.next_event_id();
    let requests = startup_open_requests(&args, &mut counter);
    assert_eq!(requests.len(), 2);
    assert_eq!(requests[0].path, "/tmp/a.md");
    assert_eq!(requests[0].ctx.event_id, 2);
    assert_eq!(requests[0].ctx.source, "cli-open-path");
    assert_eq!(requests[1].path, "b.md");
    assert_eq!(requests[1].ctx.event_id, 3);
    assert_eq!(counter.next_event_id(), 4);

    assert!(startup_open_requests(&Vec::new(), &mut counter).is_empty());
    assert!(startup_open_requests(&vec!["markhola".to_string()], &mut counter).is_empty());
}

#[test]
fn log_lines_have_a_fixed_shape() {
    assert_eq!(
        log_event("open_document.begin", Some(4), "open_document start", "path=/tmp/a.md"),
        "stage=open_document.begin event_id=open-4 msg=\"open_document start\" path=/tmp/a.md"
    );
    assert_eq!(
        log_event("app.start", None, "app run started", ""),
        "stage=app.start event_id=system msg=\"app run started\""
    );
    assert_eq!(
        debug_log_line(Some("2025-01-31T10:00:00.123"), 42, None, "hello"),
        "ts=2025-01-31T10:00:00.123 pid=42 tid=unnamed hello\n"
    );
    assert_eq!(
        debug_log_line(None, 1, Some("main"), "x"),
        "ts=unknown-ts pid=1 tid=main x\n"
    );
    assert_eq!(
        fallback_notice_line(Some("t"), 7, Some("main"), None),
        format!(
            "ts=t pid=7 tid=main stage=logger event_id=system msg=\"primary log path unavailable\" primary_path=<none> fallback_path={DEBUG_LOG_FALLBACK_PATH}\n"
        )
    );
    assert_eq!(
        primary_debug_log_path(Some("20250131")),
        Some("/var/log/markhola/markholo-20250131.log".to_string())
    );
    assert_eq!(primary_debug_log_path(None), None);
}

#[test]
fn bundled_files_are_looked_for_beside_the_program() {
    assert_eq!(
        app_theme_candidates(Some("/work"), Some("/Apps/MarkHola.app/Contents/MacOS/markhola")),
        vec![
            "/work/themes/default/layout.css".to_string(),
            "/Apps/MarkHola.app/Contents/MacOS/themes/default/layout.css".to_string(),
            "/Apps/MarkHola.app/Contents/Resources/themes/default/layout.css".to_string(),
        ]
    );
    assert_eq!(
        app_theme_candidates(Some("/opt/app"), Some("/opt/app/markhola")),
        vec![
            "/opt/app/themes/default/layout.css".to_string(),
            "/opt/Resources/themes/default/layout.css".to_string(),
        ]
    );
    assert!(app_theme_candidates(None, None).is_empty());
    assert_eq!(
        documentation_candidates(Some("/work"), Some("/Apps/M.app/Contents/MacOS/m")),
        vec![
            "/work/assets/help/Documentation.md".to_string(),
            "/Apps/M.app/Contents/MacOS/../Resources/help/Documentation.md".to_string(),
            "/Apps/M.app/Contents/Resources/help/Documentation.md".to_string(),
        ]
    );
    assert_eq!(documentation_candidates(None, Some("m")), vec!["../Resources/help/Documentation.md".to_string()]);
}

#[test]
fn navigations_to_markdown_files_open_documents() {
    assert!(matches!(navigation_decision("https://example.com/a.md"), NavigationDecision::Allow));
    assert!(matches!(navigation_decision("file:///tmp/a.txt"), NavigationDecision::Allow));
    match navigation_decision("file:///tmp/notes/a%20b.md") {
        NavigationDecision::Block { open } => assert_eq!(open, Some("/tmp/notes/a b.md".to_string())),
        NavigationDecision::Allow => panic!("expected a block"),
    }
    match navigation_decision("file://host/share/a.md") {
        NavigationDecision::Block { open } => assert_eq!(open, Some("host/share/a.md".to_string())),
        NavigationDecision::Allow => panic!("expected a block"),
    }
}

#[test]
fn the_first_file_url_is_opened() {
    let urls = vec!["https://example.com/".to_string(), "file:///tmp/a.md".to_string(), "file:///tmp/b.md".to_string()];
    assert_eq!(opened_file_path(&urls), Some(Ok("/tmp/a.md".to_string())));
    assert_eq!(opened_file_path(&vec!["https://x/".to_string()]), None);
    assert_eq!(
        opened_file_path(&vec!["file://remote-host/a.md".to_string()]),
        Some(Err("The requested file path is not valid.".to_string()))
    );
}

#[test]
fn windows_text_is_utf16_with_a_terminating_zero() {
    assert_eq!(wide(""), vec![0]);
    assert_eq!(wide("Ab"), vec![0x41, 0x62, 0]);
    let expected: Vec<u16> = "技😀".encode_utf16().chain(std::iter::once(0)).collect();
    assert_eq!(wide("技😀"), expected);
}

#[test]
fn themes_round_trip_through_their_keys_and_slots() {
    for theme in AppTheme::all() {
        assert_eq!(AppTheme::from_key(theme.key()), Some(theme));
        assert_eq!(load_selected_theme(Some(theme.key())), theme);
        assert_eq!(theme_for_slot(slot_for_theme(theme)), theme);
    }
    assert_eq!(load_selected_theme(None), AppTheme::Default);
    assert_eq!(load_selected_theme(Some("sepia")), AppTheme::Default);
    assert_eq!(AppTheme::Github.label(), "GitHub");
    assert_eq!(slot_for_theme(AppTheme::Dark), ThemeMenuSlot::Dark);
    assert_eq!(footer_theme_colors(AppTheme::Dark).0, (13, 17, 23));
}
