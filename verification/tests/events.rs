use markhola::events::{
    describe_user_event, handle_ipc_message, ipc_event, menu_command_event, menu_enablement, shortcut_event,
    ActionContext, EditCommand, EventCounter, IpcMessage, OpenPathRequest, ShortcutKey, UserEvent,
    ID_ABOUT, ID_CLOSE_OTHER_TABS, ID_COPY, ID_OPEN, ID_SAVE,
};

fn message(kind: &str) -> IpcMessage {
    IpcMessage { kind: Some(kind.to_string()), href: None, document_id: None, markdown: None }
}

#[test]
fn the_counter_numbers_requests_from_one() {
    let mut counter = EventCounter::new();
    assert_eq!(counter.next_event_id(), 1);
    assert_eq!(counter.next_event_id(), 2);
    let ctx = counter.new_action_context("menu");
    assert_eq!(ctx.event_id, 3);
    assert_eq!(ctx.source, "menu");
}

#[test]
fn requests_are_described_for_the_log() {
    let open = UserEvent::OpenPath(OpenPathRequest {
        ctx: ActionContext { event_id: 7, source: "cli-open-path" },
        path: "/tmp/a.md".to_string(),
    });
    assert_eq!(
        describe_user_event("startup", &open),
        (Some(7), "OpenPath", "source=startup origin=cli-open-path path=/tmp/a.md".to_string())
    );
    assert_eq!(
        describe_user_event("ipc", &UserEvent::ActivateDocument(12)),
        (None, "ActivateDocument", "source=ipc document_id=12".to_string())
    );
    assert_eq!(
        describe_user_event("ipc", &UserEvent::EditorChanged("技术".to_string())),
        (None, "EditorChanged", "source=ipc bytes=6".to_string())
    );
    assert_eq!(
        describe_user_event("menu", &UserEvent::Exit),
        (None, "Exit", "source=menu".to_string())
    );
    assert_eq!(
        describe_user_event("page-load", &UserEvent::RecoverShell("about:blank".to_string())),
        (None, "RecoverShell", "source=page-load url=about:blank".to_string())
    );
}

#[test]
fn shell_messages_become_requests() {
    let mut counter = EventCounter::new();
    match ipc_event(message("open-file"), &mut counter) {
        Some(UserEvent::OpenFile(ctx)) => {
            assert_eq!(ctx.event_id, 1);
            assert_eq!(ctx.source, "ipc-open-file");
        }
        _ => panic!("expected an open request"),
    }
    assert!(matches!(ipc_event(message("shell-ready"), &mut counter), Some(UserEvent::ShellReady)));
    assert!(matches!(ipc_event(message("request-save-as"), &mut counter), Some(UserEvent::SaveDocumentAs)));
    assert!(ipc_event(message("activate-document"), &mut counter).is_none());
    let activate = IpcMessage { document_id: Some(4), ..message("activate-document") };
    assert!(matches!(ipc_event(activate, &mut counter), Some(UserEvent::ActivateDocument(4))));
    let link = IpcMessage { href: Some("https://example.com".to_string()), ..message("open-external") };
    match ipc_event(link, &mut counter) {
        Some(UserEvent::OpenExternal(href)) => assert_eq!(href, "https://example.com"),
        _ => panic!("expected a link"),
    }
    let edit = IpcMessage { markdown: Some("# x".to_string()), ..message("editor-changed") };
    match ipc_event(edit, &mut counter) {
        Some(UserEvent::EditorChanged(text)) => assert_eq!(text, "# x"),
        _ => panic!("expected an edit"),
    }
    assert!(ipc_event(message("unknown"), &mut counter).is_none());
    let no_kind = IpcMessage { kind: None, href: None, document_id: None, markdown: None };
    assert!(ipc_event(no_kind, &mut counter).is_none());
    assert_eq!(counter.next_event_id(), 2);
}

#[test]
fn shortcuts_become_requests() {
    let mut counter = EventCounter::new();
    match shortcut_event(ShortcutKey::O, &mut counter) {
        Some(UserEvent::OpenFile(ctx)) => assert_eq!(ctx.source, "keyboard-command-o"),
        _ => panic!("expected an open request"),
    }
    assert!(matches!(shortcut_event(ShortcutKey::Slash, &mut counter), Some(UserEvent::ToggleMode)));
    assert!(matches!(shortcut_event(ShortcutKey::W, &mut counter), Some(UserEvent::CloseCurrentDocument)));
    assert!(shortcut_event(ShortcutKey::Other, &mut counter).is_none());
    assert_eq!(counter.next_event_id(), 2);
}

#[test]
fn menu_commands_become_requests() {
    let mut counter = EventCounter::new();
    match menu_command_event(ID_OPEN, &mut counter) {
        Some(UserEvent::OpenFile(ctx)) => {
            assert_eq!(ctx.source, "windows-menu-open");
            assert_eq!(ctx.event_id, 1);
        }
        _ => panic!("expected an open request"),
    }
    assert!(matches!(menu_command_event(ID_SAVE, &mut counter), Some(UserEvent::SaveDocument)));
    assert!(matches!(
        menu_command_event(ID_COPY, &mut counter),
        Some(UserEvent::EditCommand(EditCommand::Copy))
    ));
    assert!(matches!(menu_command_event(ID_CLOSE_OTHER_TABS, &mut counter), Some(UserEvent::CloseOtherDocuments)));
    assert!(matches!(menu_command_event(ID_ABOUT, &mut counter), Some(UserEvent::ShowAbout)));
    assert!(menu_command_event(4242, &mut counter).is_none());
}

#[test]
fn menu_items_follow_the_open_documents() {
    assert_eq!(menu_enablement(false, 0), (false, false));
    assert_eq!(menu_enablement(true, 1), (true, false));
    assert_eq!(menu_enablement(true, 2), (true, true));
}

#[test]
fn shell_payloads_are_read_as_json() {
    let mut counter = EventCounter::new();
    assert!(handle_ipc_message("not json", &mut counter).is_none());
    assert!(handle_ipc_message("{\"kind\": 7}", &mut counter).is_none());
    assert!(matches!(
        handle_ipc_message("{\"kind\":\"close-document\",\"documentId\":3}", &mut counter),
        Some(UserEvent::CloseDocument(3))
    ));
    assert!(handle_ipc_message("{\"kind\":\"close-document\",\"documentId\":\"3\"}", &mut counter).is_none());
    assert!(handle_ipc_message("{\"kind\":\"close-document\",\"documentId\":-3}", &mut counter).is_none());
    match handle_ipc_message("{\"kind\":\"editor-changed\",\"markdown\":\"# \\u6280\"}", &mut counter) {
        Some(UserEvent::EditorChanged(text)) => assert_eq!(text, "# 技"),
        _ => panic!("expected an edit"),
    }
    match handle_ipc_message("{\"kind\":\"open-file\"}", &mut counter) {
        Some(UserEvent::OpenFile(ctx)) => assert_eq!(ctx.event_id, 1),
        _ => panic!("expected an open request"),
    }
}
