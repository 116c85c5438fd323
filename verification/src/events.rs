//! The requests that reach the application's event loop, where they come from, how they are
//! described in the log, and the state of the web shell that shows the workspace.
use vstd::prelude::*;

use crate::text::{concat, decimal, has_prefix, is_blank, str_eq, trim, trimmed, u64_to_string};

verus! {

/// The origin of a request, with the number under which the log follows it.
pub struct ActionContext {
    pub event_id: u64,
    pub source: &'static str,
}

/// A request to open the file at `path`.
pub struct OpenPathRequest {
    pub ctx: ActionContext,
    pub path: String,
}

/// An editing command of the native menu.
#[derive(Clone, Copy, Debug, PartialEq, Eq, Structural)]
pub enum EditCommand {
    Undo,
    Redo,
    Cut,
    Copy,
    Paste,
    SelectAll,
}

/// A request to the event loop.
pub enum UserEvent {
    NewDocument,
    OpenFile(ActionContext),
    OpenPath(OpenPathRequest),
    ActivateDocument(u64),
    ActivateNextDocument,
    ActivatePreviousDocument,
    CloseDocument(u64),
    CloseCurrentDocument,
    CloseOtherDocuments,
    CloseAllDocuments,
    ShellReady,
    RecoverShell(String),
    OpenExternal(String),
    SaveDocument,
    SaveDocumentAs,
    ExportPdf,
    ExportHtml,
    PrintDocument,
    OpenFind,
    EditCommand(EditCommand),
    ToggleMode,
    EditorChanged(String),
    ShowAbout,
    OpenDocumentation,
    Exit,
}

/// A request, as plain values.
pub ghost enum EventView {
    NewDocument,
    OpenFile(u64, Seq<char>),
    OpenPath(u64, Seq<char>, Seq<char>),
    ActivateDocument(u64),
    ActivateNextDocument,
    ActivatePreviousDocument,
    CloseDocument(u64),
    CloseCurrentDocument,
    CloseOtherDocuments,
    CloseAllDocuments,
    ShellReady,
    RecoverShell(Seq<char>),
    OpenExternal(Seq<char>),
    SaveDocument,
    SaveDocumentAs,
    ExportPdf,
    ExportHtml,
    PrintDocument,
    OpenFind,
    EditCommand(EditCommand),
    ToggleMode,
    EditorChanged(Seq<char>),
    ShowAbout,
    OpenDocumentation,
    Exit,
}

/// The plain values of a request.
pub open spec fn event_view(e: UserEvent) -> EventView {
    match e {
        UserEvent::NewDocument => EventView::NewDocument,
        UserEvent::OpenFile(c) => EventView::OpenFile(c.event_id, c.source@),
        UserEvent::OpenPath(r) => EventView::OpenPath(r.ctx.event_id, r.ctx.source@, r.path@),
        UserEvent::ActivateDocument(id) => EventView::ActivateDocument(id),
        UserEvent::ActivateNextDocument => EventView::ActivateNextDocument,
        UserEvent::ActivatePreviousDocument => EventView::ActivatePreviousDocument,
        UserEvent::CloseDocument(id) => EventView::CloseDocument(id),
        UserEvent::CloseCurrentDocument => EventView::CloseCurrentDocument,
        UserEvent::CloseOtherDocuments => EventView::CloseOtherDocuments,
        UserEvent::CloseAllDocuments => EventView::CloseAllDocuments,
        UserEvent::ShellReady => EventView::ShellReady,
        UserEvent::RecoverShell(u) => EventView::RecoverShell(u@),
        UserEvent::OpenExternal(h) => EventView::OpenExternal(h@),
        UserEvent::SaveDocument => EventView::SaveDocument,
        UserEvent::SaveDocumentAs => EventView::SaveDocumentAs,
        UserEvent::ExportPdf => EventView::ExportPdf,
        UserEvent::ExportHtml => EventView::ExportHtml,
        UserEvent::PrintDocument => EventView::PrintDocument,
        UserEvent::OpenFind => EventView::OpenFind,
        UserEvent::EditCommand(c) => EventView::EditCommand(c),
        UserEvent::ToggleMode => EventView::ToggleMode,
        UserEvent::EditorChanged(m) => EventView::EditorChanged(m@),
        UserEvent::ShowAbout => EventView::ShowAbout,
        UserEvent::OpenDocumentation => EventView::OpenDocumentation,
        UserEvent::Exit => EventView::Exit,
    }
}

pub open spec fn event_view_opt(e: Option<UserEvent>) -> Option<EventView> {
    match e {
        Some(e) => Some(event_view(e)),
        None => None,
    }
}

// ---------------------------------------------------------------------------
// Numbering the requests

/// Hands out the numbers under which the log follows requests.
pub struct EventCounter {
    next: u64,
}

impl EventCounter {
    pub closed spec fn next_value(&self) -> u64 {
        self.next
    }

    /// A counter whose first number is 1.
    pub fn new() -> (r: Self)
        ensures
            r.next_value() == 1,
    {
        EventCounter { next: 1 }
    }

    /// The next number; after the largest number the count starts again at 0.
    pub fn next_event_id(&mut self) -> (r: u64)
        ensures
            r == old(self).next_value(),
            final(self).next_value() == (if old(self).next_value() == u64::MAX {
                0
            } else {
                (old(self).next_value() + 1) as u64
            }),
    {
        let id = self.next;
        self.next = if id == u64::MAX {
            0
        } else {
            id + 1
        };
        id
    }

    /// The origin `source` of a new request, under the next number.
    pub fn new_action_context(&mut self, source: &'static str) -> (r: ActionContext)
        ensures
            r.event_id == old(self).next_value(),
            r.source == source,
            final(self).next_value() == (if old(self).next_value() == u64::MAX {
                0
            } else {
                (old(self).next_value() + 1) as u64
            }),
    {
        ActionContext { event_id: self.next_event_id(), source }
    }
}

// ---------------------------------------------------------------------------
// Describing requests in the log

/// The log description of a request that carries nothing but its origin.
pub open spec fn plain(name: Seq<char>, stage: Seq<char>) -> (Option<u64>, Seq<char>, Seq<char>) {
    (None, name, "source="@ + stage)
}

/// The number, name and details under which the log records a request sent from `stage`.
pub open spec fn description(stage: Seq<char>, e: EventView) -> (Option<u64>, Seq<char>, Seq<char>) {
    match e {
        EventView::NewDocument => plain("NewDocument"@, stage),
        EventView::OpenFile(id, origin) => (
            Some(id),
            "OpenFile"@,
            "source="@ + stage + " origin="@ + origin,
        ),
        EventView::OpenPath(id, origin, path) => (
            Some(id),
            "OpenPath"@,
            "source="@ + stage + " origin="@ + origin + " path="@ + path,
        ),
        EventView::ActivateDocument(id) => (
            None,
            "ActivateDocument"@,
            "source="@ + stage + " document_id="@ + decimal(id as nat),
        ),
        EventView::ActivateNextDocument => plain("ActivateNextDocument"@, stage),
        EventView::ActivatePreviousDocument => plain("ActivatePreviousDocument"@, stage),
        EventView::CloseDocument(id) => (
            None,
            "CloseDocument"@,
            "source="@ + stage + " document_id="@ + decimal(id as nat),
        ),
        EventView::CloseCurrentDocument => plain("CloseCurrentDocument"@, stage),
        EventView::CloseOtherDocuments => plain("CloseOtherDocuments"@, stage),
        EventView::CloseAllDocuments => plain("CloseAllDocuments"@, stage),
        EventView::ShellReady => plain("ShellReady"@, stage),
        EventView::RecoverShell(url) => (None, "RecoverShell"@, "source="@ + stage + " url="@ + url),
        EventView::OpenExternal(href) => (
            None,
            "OpenExternal"@,
            "source="@ + stage + " href="@ + href,
        ),
        EventView::SaveDocument => plain("SaveDocument"@, stage),
        EventView::SaveDocumentAs => plain("SaveDocumentAs"@, stage),
        EventView::ExportPdf => plain("ExportPdf"@, stage),
        EventView::ExportHtml => plain("ExportHtml"@, stage),
        EventView::PrintDocument => plain("PrintDocument"@, stage),
        EventView::OpenFind => plain("OpenFind"@, stage),
        EventView::EditCommand(_) => plain("EditCommand"@, stage),
        EventView::ToggleMode => plain("ToggleMode"@, stage),
        EventView::EditorChanged(markdown) => (
            None,
            "EditorChanged"@,
            "source="@ + stage + " bytes="@ + decimal(
                (vstd::utf8::encode_utf8(markdown).len() as usize) as nat,
            ),
        ),
        EventView::ShowAbout => plain("ShowAbout"@, stage),
        EventView::OpenDocumentation => plain("OpenDocumentation"@, stage),
        EventView::Exit => plain("Exit"@, stage),
    }
}

fn source_detail(stage: &str) -> (r: String)
    ensures
        r@ == "source="@ + stage@,
{
    concat("source=", stage)
}

fn plain_description(name: &'static str, stage: &str) -> (r: (Option<u64>, &'static str, String))
    ensures
        r.0 is None,
        r.1@ == name@,
        r.2@ == "source="@ + stage@,
{
    (None, name, source_detail(stage))
}

fn detail_with(stage: &str, label: &str, value: &str) -> (r: String)
    ensures
        r@ == "source="@ + stage@ + label@ + value@,
{
    let mut r = source_detail(stage);
    r.append(label);
    r.append(value);
    r
}

/// The number, name and details under which the log records `event`, sent from
/// `stage_source`.
pub fn describe_user_event(stage_source: &str, event: &UserEvent) -> (r: (Option<u64>, &'static str, String))
    ensures
        r.0 == description(stage_source@, event_view(*event)).0,
        r.1@ == description(stage_source@, event_view(*event)).1,
        r.2@ == description(stage_source@, event_view(*event)).2,
{
    match event {
        UserEvent::NewDocument => plain_description("NewDocument", stage_source),
        UserEvent::OpenFile(ctx) => (
            Some(ctx.event_id),
            "OpenFile",
            detail_with(stage_source, " origin=", ctx.source),
        ),
        UserEvent::OpenPath(request) => {
            let mut details = detail_with(stage_source, " origin=", request.ctx.source);
            details.append(" path=");
            details.append(request.path.as_str());
            (Some(request.ctx.event_id), "OpenPath", details)
        },
        UserEvent::ActivateDocument(document_id) => {
            let number = u64_to_string(*document_id);
            (None, "ActivateDocument", detail_with(stage_source, " document_id=", number.as_str()))
        },
        UserEvent::ActivateNextDocument => plain_description("ActivateNextDocument", stage_source),
        UserEvent::ActivatePreviousDocument => plain_description(
            "ActivatePreviousDocument",
            stage_source,
        ),
        UserEvent::CloseDocument(document_id) => {
            let number = u64_to_string(*document_id);
            (None, "CloseDocument", detail_with(stage_source, " document_id=", number.as_str()))
        },
        UserEvent::CloseCurrentDocument => plain_description("CloseCurrentDocument", stage_source),
        UserEvent::CloseOtherDocuments => plain_description("CloseOtherDocuments", stage_source),
        UserEvent::CloseAllDocuments => plain_description("CloseAllDocuments", stage_source),
        UserEvent::ShellReady => plain_description("ShellReady", stage_source),
        UserEvent::RecoverShell(url) => (
            None,
            "RecoverShell",
            detail_with(stage_source, " url=", url.as_str()),
        ),
        UserEvent::OpenExternal(href) => (
            None,
            "OpenExternal",
            detail_with(stage_source, " href=", href.as_str()),
        ),
        UserEvent::SaveDocument => plain_description("SaveDocument", stage_source),
        UserEvent::SaveDocumentAs => plain_description("SaveDocumentAs", stage_source),
        UserEvent::ExportPdf => plain_description("ExportPdf", stage_source),
        UserEvent::ExportHtml => plain_description("ExportHtml", stage_source),
        UserEvent::PrintDocument => plain_description("PrintDocument", stage_source),
        UserEvent::OpenFind => plain_description("OpenFind", stage_source),
        UserEvent::EditCommand(_) => plain_description("EditCommand", stage_source),
        UserEvent::ToggleMode => plain_description("ToggleMode", stage_source),
        UserEvent::EditorChanged(markdown) => {
            let bytes = markdown.as_str().len();
            let number = u64_to_string(bytes as u64);
            (None, "EditorChanged", detail_with(stage_source, " bytes=", number.as_str()))
        },
        UserEvent::ShowAbout => plain_description("ShowAbout", stage_source),
        UserEvent::OpenDocumentation => plain_description("OpenDocumentation", stage_source),
        UserEvent::Exit => plain_description("Exit", stage_source),
    }
}

// ---------------------------------------------------------------------------
// Requests from the web shell

/// The fields of a message that the web shell posts, as far as they are strings or numbers.
pub struct IpcMessage {
    pub kind: Option<String>,
    pub href: Option<String>,
    pub document_id: Option<u64>,
    pub markdown: Option<String>,
}

/// The request that a shell message of kind `kind` makes; `open-file` takes the number `id`.
pub open spec fn ipc_request(
    kind: Seq<char>,
    href: Option<Seq<char>>,
    document_id: Option<u64>,
    markdown: Option<Seq<char>>,
    id: u64,
) -> Option<EventView> {
    if kind == "open-file"@ {
        Some(EventView::OpenFile(id, "ipc-open-file"@))
    } else if kind == "shell-ready"@ {
        Some(EventView::ShellReady)
    } else if kind == "toggle-mode"@ {
        Some(EventView::ToggleMode)
    } else if kind == "close-current-document"@ {
        Some(EventView::CloseCurrentDocument)
    } else if kind == "request-save"@ {
        Some(EventView::SaveDocument)
    } else if kind == "request-save-as"@ {
        Some(EventView::SaveDocumentAs)
    } else if kind == "request-export-pdf"@ {
        Some(EventView::ExportPdf)
    } else if kind == "request-export-html"@ {
        Some(EventView::ExportHtml)
    } else if kind == "request-print"@ {
        Some(EventView::PrintDocument)
    } else if kind == "request-open-find"@ {
        Some(EventView::OpenFind)
    } else if kind == "request-exit"@ {
        Some(EventView::Exit)
    } else if kind == "open-external"@ {
        match href {
            Some(h) => Some(EventView::OpenExternal(h)),
            None => None,
        }
    } else if kind == "activate-document"@ {
        match document_id {
            Some(d) => Some(EventView::ActivateDocument(d)),
            None => None,
        }
    } else if kind == "close-document"@ {
        match document_id {
            Some(d) => Some(EventView::CloseDocument(d)),
            None => None,
        }
    } else if kind == "editor-changed"@ {
        match markdown {
            Some(m) => Some(EventView::EditorChanged(m)),
            None => None,
        }
    } else {
        None
    }
}

pub open spec fn opt_view(s: Option<String>) -> Option<Seq<char>> {
    match s {
        Some(s) => Some(s@),
        None => None,
    }
}

/// Whether the request of a shell message draws a number from the counter.
pub open spec fn ipc_draws_number(kind: Option<Seq<char>>) -> bool {
    kind == Some("open-file"@)
}

/// The request that a message of the web shell makes, if any.
pub fn ipc_event(message: IpcMessage, counter: &mut EventCounter) -> (r: Option<UserEvent>)
    ensures
        message.kind is None ==> r is None,
        message.kind matches Some(k) ==> event_view_opt(r) == ipc_request(
            k@,
            opt_view(message.href),
            message.document_id,
            opt_view(message.markdown),
            old(counter).next_value(),
        ),
        ipc_draws_number(opt_view(message.kind)) ==> final(counter).next_value() == (if old(
            counter,
        ).next_value() == u64::MAX {
            0
        } else {
            (old(counter).next_value() + 1) as u64
        }),
        !ipc_draws_number(opt_view(message.kind)) ==> *final(counter) == *old(counter),
{
    let kind = match message.kind {
        Some(k) => k,
        None => {
            return None;
        },
    };
    let k = kind.as_str();
    if str_eq(k, "open-file") {
        Some(UserEvent::OpenFile(counter.new_action_context("ipc-open-file")))
    } else if str_eq(k, "shell-ready") {
        Some(UserEvent::ShellReady)
    } else if str_eq(k, "toggle-mode") {
        Some(UserEvent::ToggleMode)
    } else if str_eq(k, "close-current-document") {
        Some(UserEvent::CloseCurrentDocument)
    } else if str_eq(k, "request-save") {
        Some(UserEvent::SaveDocument)
    } else if str_eq(k, "request-save-as") {
        Some(UserEvent::SaveDocumentAs)
    } else if str_eq(k, "request-export-pdf") {
        Some(UserEvent::ExportPdf)
    } else if str_eq(k, "request-export-html") {
        Some(UserEvent::ExportHtml)
    } else if str_eq(k, "request-print") {
        Some(UserEvent::PrintDocument)
    } else if str_eq(k, "request-open-find") {
        Some(UserEvent::OpenFind)
    } else if str_eq(k, "request-exit") {
        Some(UserEvent::Exit)
    } else if str_eq(k, "open-external") {
        match message.href {
            Some(h) => Some(UserEvent::OpenExternal(h)),
            None => None,
        }
    } else if str_eq(k, "activate-document") {
        match message.document_id {
            Some(d) => Some(UserEvent::ActivateDocument(d)),
            None => None,
        }
    } else if str_eq(k, "close-document") {
        match message.document_id {
            Some(d) => Some(UserEvent::CloseDocument(d)),
            None => None,
        }
    } else if str_eq(k, "editor-changed") {
        match message.markdown {
            Some(m) => Some(UserEvent::EditorChanged(m)),
            None => None,
        }
    } else {
        None
    }
}

/// What `serde_json` reads from a message of the web shell: `None` where it is no JSON, else
/// its `kind`, `href`, `documentId` and `markdown` fields, each where it is present as a string
/// (for `documentId`, as an unsigned integer).
pub uninterp spec fn json_message_fields(payload: Seq<char>) -> Option<
    (Option<Seq<char>>, Option<Seq<char>>, Option<u64>, Option<Seq<char>>),
>;

/// The fields of a message as plain values.
pub open spec fn message_fields(m: IpcMessage) -> (
    Option<Seq<char>>,
    Option<Seq<char>>,
    Option<u64>,
    Option<Seq<char>>,
) {
    (opt_view(m.kind), opt_view(m.href), m.document_id, opt_view(m.markdown))
}

/// `serde_json::from_str` into a `serde_json::Value`, and the fields that the library reads
/// from it. What is read from which payload is named, not stated.
#[verifier::external_body]
fn parse_ipc_message(payload: &str) -> (r: Option<IpcMessage>)
    ensures
        r matches Some(m) ==> json_message_fields(payload@) == Some(message_fields(m)),
        r is None ==> json_message_fields(payload@) is None,
{
    let value: serde_json::Value = serde_json::from_str(payload).ok()?;
    let text = |key: &str| value.get(key).and_then(serde_json::Value::as_str).map(str::to_string);
    Some(IpcMessage {
        kind: text("kind"),
        href: text("href"),
        document_id: value.get("documentId").and_then(serde_json::Value::as_u64),
        markdown: text("markdown"),
    })
}

/// The request that the message `payload` of the web shell makes, if any; a payload that is
/// no JSON makes none.
pub fn handle_ipc_message(payload: &str, counter: &mut EventCounter) -> (r: Option<UserEvent>)
    ensures
        json_message_fields(payload@) is None ==> r is None && *final(counter) == *old(counter),
        json_message_fields(payload@) matches Some(f) ==> {
            &&& f.0 is None ==> r is None
            &&& (f.0 matches Some(k) ==> event_view_opt(r) == ipc_request(
                k,
                f.1,
                f.2,
                f.3,
                old(counter).next_value(),
            ))
            &&& ipc_draws_number(f.0) ==> final(counter).next_value() == (if old(
                counter,
            ).next_value() == u64::MAX {
                0
            } else {
                (old(counter).next_value() + 1) as u64
            })
            &&& !ipc_draws_number(f.0) ==> *final(counter) == *old(counter)
        },
{
    match parse_ipc_message(payload) {
        Some(message) => ipc_event(message, counter),
        None => None,
    }
}

// ---------------------------------------------------------------------------
// Requests from the keyboard and the native menus

/// A key pressed together with the primary modifier.
#[derive(Clone, Copy, Debug, PartialEq, Eq, Structural)]
pub enum ShortcutKey {
    O,
    S,
    P,
    F,
    W,
    Slash,
    Other,
}

/// The request that a keyboard shortcut makes; the open shortcut takes the number `id`.
pub open spec fn shortcut_request(key: ShortcutKey, id: u64) -> Option<EventView> {
    match key {
        ShortcutKey::O => Some(EventView::OpenFile(id, "keyboard-command-o"@)),
        ShortcutKey::S => Some(EventView::SaveDocument),
        ShortcutKey::P => Some(EventView::PrintDocument),
        ShortcutKey::F => Some(EventView::OpenFind),
        ShortcutKey::W => Some(EventView::CloseCurrentDocument),
        ShortcutKey::Slash => Some(EventView::ToggleMode),
        ShortcutKey::Other => None,
    }
}

/// The request that the primary modifier with `key` makes, if any.
pub fn shortcut_event(key: ShortcutKey, counter: &mut EventCounter) -> (r: Option<UserEvent>)
    ensures
        event_view_opt(r) == shortcut_request(key, old(counter).next_value()),
        key == ShortcutKey::O ==> final(counter).next_value() == (if old(counter).next_value()
            == u64::MAX {
            0
        } else {
            (old(counter).next_value() + 1) as u64
        }),
        key != ShortcutKey::O ==> *final(counter) == *old(counter),
{
    match key {
        ShortcutKey::O => Some(UserEvent::OpenFile(counter.new_action_context("keyboard-command-o"))),
        ShortcutKey::S => Some(UserEvent::SaveDocument),
        ShortcutKey::P => Some(UserEvent::PrintDocument),
        ShortcutKey::F => Some(UserEvent::OpenFind),
        ShortcutKey::W => Some(UserEvent::CloseCurrentDocument),
        ShortcutKey::Slash => Some(UserEvent::ToggleMode),
        ShortcutKey::Other => None,
    }
}

pub const ID_OPEN: u16 = 1001;
pub const ID_SAVE: u16 = 1002;
pub const ID_SAVE_AS: u16 = 1003;
pub const ID_PRINT: u16 = 1004;
pub const ID_EXPORT_PDF: u16 = 1005;
pub const ID_EXPORT_HTML: u16 = 1006;
pub const ID_TOGGLE_MODE: u16 = 1007;
pub const ID_CLOSE_TAB: u16 = 1008;
pub const ID_EXIT: u16 = 1009;
pub const ID_UNDO: u16 = 1101;
pub const ID_REDO: u16 = 1102;
pub const ID_FIND: u16 = 1103;
pub const ID_CUT: u16 = 1104;
pub const ID_COPY: u16 = 1105;
pub const ID_PASTE: u16 = 1106;
pub const ID_SELECT_ALL: u16 = 1107;
pub const ID_NEXT_TAB: u16 = 1201;
pub const ID_PREVIOUS_TAB: u16 = 1202;
pub const ID_CLOSE_OTHER_TABS: u16 = 1203;
pub const ID_CLOSE_ALL_TABS: u16 = 1204;
pub const ID_DOCUMENTATION: u16 = 1301;
pub const ID_ABOUT: u16 = 1302;

/// The request that the menu command `id` makes; the open command takes the number `n`.
pub open spec fn menu_request(id: u16, n: u64) -> Option<EventView> {
    if id == ID_OPEN {
        Some(EventView::OpenFile(n, "windows-menu-open"@))
    } else if id == ID_SAVE {
        Some(EventView::SaveDocument)
    } else if id == ID_SAVE_AS {
        Some(EventView::SaveDocumentAs)
    } else if id == ID_PRINT {
        Some(EventView::PrintDocument)
    } else if id == ID_EXPORT_PDF {
        Some(EventView::ExportPdf)
    } else if id == ID_EXPORT_HTML {
        Some(EventView::ExportHtml)
    } else if id == ID_TOGGLE_MODE {
        Some(EventView::ToggleMode)
    } else if id == ID_CLOSE_TAB {
        Some(EventView::CloseCurrentDocument)
    } else if id == ID_EXIT {
        Some(EventView::Exit)
    } else if id == ID_UNDO {
        Some(EventView::EditCommand(EditCommand::Undo))
    } else if id == ID_REDO {
        Some(EventView::EditCommand(EditCommand::Redo))
    } else if id == ID_FIND {
        Some(EventView::OpenFind)
    } else if id == ID_CUT {
        Some(EventView::EditCommand(EditCommand::Cut))
    } else if id == ID_COPY {
        Some(EventView::EditCommand(EditCommand::Copy))
    } else if id == ID_PASTE {
        Some(EventView::EditCommand(EditCommand::Paste))
    } else if id == ID_SELECT_ALL {
        Some(EventView::EditCommand(EditCommand::SelectAll))
    } else if id == ID_NEXT_TAB {
        Some(EventView::ActivateNextDocument)
    } else if id == ID_PREVIOUS_TAB {
        Some(EventView::ActivatePreviousDocument)
    } else if id == ID_CLOSE_OTHER_TABS {
        Some(EventView::CloseOtherDocuments)
    } else if id == ID_CLOSE_ALL_TABS {
        Some(EventView::CloseAllDocuments)
    } else if id == ID_DOCUMENTATION {
        Some(EventView::OpenDocumentation)
    } else if id == ID_ABOUT {
        Some(EventView::ShowAbout)
    } else {
        None
    }
}

/// The request that the native menu command `command_id` makes, if any.
pub fn menu_command_event(command_id: u16, counter: &mut EventCounter) -> (r: Option<UserEvent>)
    ensures
        event_view_opt(r) == menu_request(command_id, old(counter).next_value()),
        command_id == ID_OPEN ==> final(counter).next_value() == (if old(counter).next_value()
            == u64::MAX {
            0
        } else {
            (old(counter).next_value() + 1) as u64
        }),
        command_id != ID_OPEN ==> *final(counter) == *old(counter),
{
    if command_id == ID_OPEN {
        Some(UserEvent::OpenFile(counter.new_action_context("windows-menu-open")))
    } else if command_id == ID_SAVE {
        Some(UserEvent::SaveDocument)
    } else if command_id == ID_SAVE_AS {
        Some(UserEvent::SaveDocumentAs)
    } else if command_id == ID_PRINT {
        Some(UserEvent::PrintDocument)
    } else if command_id == ID_EXPORT_PDF {
        Some(UserEvent::ExportPdf)
    } else if command_id == ID_EXPORT_HTML {
        Some(UserEvent::ExportHtml)
    } else if command_id == ID_TOGGLE_MODE {
        Some(UserEvent::ToggleMode)
    } else if command_id == ID_CLOSE_TAB {
        Some(UserEvent::CloseCurrentDocument)
    } else if command_id == ID_EXIT {
        Some(UserEvent::Exit)
    } else if command_id == ID_UNDO {
        Some(UserEvent::EditCommand(EditCommand::Undo))
    } else if command_id == ID_REDO {
        Some(UserEvent::EditCommand(EditCommand::Redo))
    } else if command_id == ID_FIND {
        Some(UserEvent::OpenFind)
    } else if command_id == ID_CUT {
        Some(UserEvent::EditCommand(EditCommand::Cut))
    } else if command_id == ID_COPY {
        Some(UserEvent::EditCommand(EditCommand::Copy))
    } else if command_id == ID_PASTE {
        Some(UserEvent::EditCommand(EditCommand::Paste))
    } else if command_id == ID_SELECT_ALL {
        Some(UserEvent::EditCommand(EditCommand::SelectAll))
    } else if command_id == ID_NEXT_TAB {
        Some(UserEvent::ActivateNextDocument)
    } else if command_id == ID_PREVIOUS_TAB {
        Some(UserEvent::ActivatePreviousDocument)
    } else if command_id == ID_CLOSE_OTHER_TABS {
        Some(UserEvent::CloseOtherDocuments)
    } else if command_id == ID_CLOSE_ALL_TABS {
        Some(UserEvent::CloseAllDocuments)
    } else if command_id == ID_DOCUMENTATION {
        Some(UserEvent::OpenDocumentation)
    } else if command_id == ID_ABOUT {
        Some(UserEvent::ShowAbout)
    } else {
        None
    }
}

/// Which native menu items are enabled: the document items when a document is open, the tab
/// items when more than one is.
pub fn menu_enablement(has_document: bool, document_count: usize) -> (r: (bool, bool))
    ensures
        r.0 == has_document,
        r.1 == (document_count > 1),
{
    (has_document, document_count > 1)
}

// ---------------------------------------------------------------------------
// The web shell

/// Whether a page that finished loading at `url` means the shell was lost: a blank page.
pub open spec fn blank_page(url: Seq<char>) -> bool {
    trimmed(url).len() == 0 || trimmed(url) == "about:blank"@
}

/// Whether a page that finished loading at `url` means the shell was lost and must be
/// rebuilt.
pub fn should_recover_shell_on_page_load(url: &str) -> (r: bool)
    ensures
        r == blank_page(url@),
{
    let t = trim(url);
    t.as_str().unicode_len() == 0 || str_eq(t.as_str(), "about:blank")
}

/// Whether to rebuild the shell after a page finished loading at `url`. The first blank
/// page after the shell was (re)built is expected and only clears `suppress_once`.
pub fn should_dispatch_shell_recovery(url: &str, suppress_once: &mut bool) -> (r: bool)
    ensures
        r == (blank_page(url@) && !*old(suppress_once)),
        *final(suppress_once) == (if blank_page(url@) {
            false
        } else {
            *old(suppress_once)
        }),
{
    if should_recover_shell_on_page_load(url) {
        let suppressed = *suppress_once;
        *suppress_once = false;
        !suppressed
    } else {
        false
    }
}

/// What the event loop knows of the web shell.
pub struct ShellRuntime {
    /// The shell has reported that it is ready.
    pub ready: bool,
    /// The shell is being rebuilt after it was lost.
    pub recovery_pending: bool,
    /// Files to open once the shell is ready.
    pub pending_open_requests: Vec<OpenPathRequest>,
}

/// Each message of the page that names a command makes that command's request, whatever else
/// the message carries: `request-save` (what the page posts on Command/Ctrl+S) saves in place,
/// `request-save-as` asks for a new path, and so on for the others.
pub proof fn law_page_commands_make_their_requests(
    href: Option<Seq<char>>,
    document_id: Option<u64>,
    markdown: Option<Seq<char>>,
    id: u64,
)
    ensures
        ipc_request("open-file"@, href, document_id, markdown, id) == Some(EventView::OpenFile(id, "ipc-open-file"@)),
        ipc_request("shell-ready"@, href, document_id, markdown, id) == Some(EventView::ShellReady),
        ipc_request("toggle-mode"@, href, document_id, markdown, id) == Some(EventView::ToggleMode),
        ipc_request("close-current-document"@, href, document_id, markdown, id) == Some(EventView::CloseCurrentDocument),
        ipc_request("request-save"@, href, document_id, markdown, id) == Some(EventView::SaveDocument),
        ipc_request("request-save-as"@, href, document_id, markdown, id) == Some(EventView::SaveDocumentAs),
        ipc_request("request-export-pdf"@, href, document_id, markdown, id) == Some(EventView::ExportPdf),
        ipc_request("request-export-html"@, href, document_id, markdown, id) == Some(EventView::ExportHtml),
        ipc_request("request-print"@, href, document_id, markdown, id) == Some(EventView::PrintDocument),
        ipc_request("request-open-find"@, href, document_id, markdown, id) == Some(EventView::OpenFind),
        ipc_request("request-exit"@, href, document_id, markdown, id) == Some(EventView::Exit),
{
    assert(ipc_request("open-file"@, href, document_id, markdown, id) == Some(EventView::OpenFile(id, "ipc-open-file"@))) by {
        reveal_strlit("open-file");
    }
    assert(ipc_request("shell-ready"@, href, document_id, markdown, id) == Some(EventView::ShellReady)) by {
        reveal_strlit("shell-ready");
        reveal_strlit("open-file");
        assert("shell-ready"@.len() != "open-file"@.len());
    }
    assert(ipc_request("toggle-mode"@, href, document_id, markdown, id) == Some(EventView::ToggleMode)) by {
        reveal_strlit("toggle-mode");
        reveal_strlit("open-file");
        assert("toggle-mode"@.len() != "open-file"@.len());
        reveal_strlit("shell-ready");
        assert("toggle-mode"@[0] != "shell-ready"@[0]);
    }
    assert(ipc_request("close-current-document"@, href, document_id, markdown, id) == Some(EventView::CloseCurrentDocument)) by {
        reveal_strlit("close-current-document");
        reveal_strlit("open-file");
        assert("close-current-document"@.len() != "open-file"@.len());
        reveal_strlit("shell-ready");
        assert("close-current-document"@.len() != "shell-ready"@.len());
        reveal_strlit("toggle-mode");
        assert("close-current-document"@.len() != "toggle-mode"@.len());
    }
    assert(ipc_request("request-save"@, href, document_id, markdown, id) == Some(EventView::SaveDocument)) by {
        reveal_strlit("request-save");
        reveal_strlit("open-file");
        assert("request-save"@.len() != "open-file"@.len());
        reveal_strlit("shell-ready");
        assert("request-save"@.len() != "shell-ready"@.len());
        reveal_strlit("toggle-mode");
        assert("request-save"@.len() != "toggle-mode"@.len());
        reveal_strlit("close-current-document");
        assert("request-save"@.len() != "close-current-document"@.len());
    }
    assert(ipc_request("request-save-as"@, href, document_id, markdown, id) == Some(EventView::SaveDocumentAs)) by {
        reveal_strlit("request-save-as");
        reveal_strlit("open-file");
        assert("request-save-as"@.len() != "open-file"@.len());
        reveal_strlit("shell-ready");
        assert("request-save-as"@.len() != "shell-ready"@.len());
        reveal_strlit("toggle-mode");
        assert("request-save-as"@.len() != "toggle-mode"@.len());
        reveal_strlit("close-current-document");
        assert("request-save-as"@.len() != "close-current-document"@.len());
        reveal_strlit("request-save");
        assert("request-save-as"@.len() != "request-save"@.len());
    }
    assert(ipc_request("request-export-pdf"@, href, document_id, markdown, id) == Some(EventView::ExportPdf)) by {
        reveal_strlit("request-export-pdf");
        reveal_strlit("open-file");
        assert("request-export-pdf"@.len() != "open-file"@.len());
        reveal_strlit("shell-ready");
        assert("request-export-pdf"@.len() != "shell-ready"@.len());
        reveal_strlit("toggle-mode");
        assert("request-export-pdf"@.len() != "toggle-mode"@.len());
        reveal_strlit("close-current-document");
        assert("request-export-pdf"@.len() != "close-current-document"@.len());
        reveal_strlit("request-save");
        assert("request-export-pdf"@.len() != "request-save"@.len());
        reveal_strlit("request-save-as");
        assert("request-export-pdf"@.len() != "request-save-as"@.len());
    }
    assert(ipc_request("request-export-html"@, href, document_id, markdown, id) == Some(EventView::ExportHtml)) by {
        reveal_strlit("request-export-html");
        reveal_strlit("open-file");
        assert("request-export-html"@.len() != "open-file"@.len());
        reveal_strlit("shell-ready");
        assert("request-export-html"@.len() != "shell-ready"@.len());
        reveal_strlit("toggle-mode");
        assert("request-export-html"@.len() != "toggle-mode"@.len());
        reveal_strlit("close-current-document");
        assert("request-export-html"@.len() != "close-current-document"@.len());
        reveal_strlit("request-save");
        assert("request-export-html"@.len() != "request-save"@.len());
        reveal_strlit("request-save-as");
        assert("request-export-html"@.len() != "request-save-as"@.len());
        reveal_strlit("request-export-pdf");
        assert("request-export-html"@.len() != "request-export-pdf"@.len());
    }
    assert(ipc_request("request-print"@, href, document_id, markdown, id) == Some(EventView::PrintDocument)) by {
        reveal_strlit("request-print");
        reveal_strlit("open-file");
        assert("request-print"@.len() != "open-file"@.len());
        reveal_strlit("shell-ready");
        assert("request-print"@.len() != "shell-ready"@.len());
        reveal_strlit("toggle-mode");
        assert("request-print"@.len() != "toggle-mode"@.len());
        reveal_strlit("close-current-document");
        assert("request-print"@.len() != "close-current-document"@.len());
        reveal_strlit("request-save");
        assert("request-print"@.len() != "request-save"@.len());
        reveal_strlit("request-save-as");
        assert("request-print"@.len() != "request-save-as"@.len());
        reveal_strlit("request-export-pdf");
        assert("request-print"@.len() != "request-export-pdf"@.len());
        reveal_strlit("request-export-html");
        assert("request-print"@.len() != "request-export-html"@.len());
    }
    assert(ipc_request("request-open-find"@, href, document_id, markdown, id) == Some(EventView::OpenFind)) by {
        reveal_strlit("request-open-find");
        reveal_strlit("open-file");
        assert("request-open-find"@.len() != "open-file"@.len());
        reveal_strlit("shell-ready");
        assert("request-open-find"@.len() != "shell-ready"@.len());
        reveal_strlit("toggle-mode");
        assert("request-open-find"@.len() != "toggle-mode"@.len());
        reveal_strlit("close-current-document");
        assert("request-open-find"@.len() != "close-current-document"@.len());
        reveal_strlit("request-save");
        assert("request-open-find"@.len() != "request-save"@.len());
        reveal_strlit("request-save-as");
        assert("request-open-find"@.len() != "request-save-as"@.len());
        reveal_strlit("request-export-pdf");
        assert("request-open-find"@.len() != "request-export-pdf"@.len());
        reveal_strlit("request-export-html");
        assert("request-open-find"@.len() != "request-export-html"@.len());
        reveal_strlit("request-print");
        assert("request-open-find"@.len() != "request-print"@.len());
    }
    assert(ipc_request("request-exit"@, href, document_id, markdown, id) == Some(EventView::Exit)) by {
        reveal_strlit("request-exit");
        reveal_strlit("open-file");
        assert("request-exit"@.len() != "open-file"@.len());
        reveal_strlit("shell-ready");
        assert("request-exit"@.len() != "shell-ready"@.len());
        reveal_strlit("toggle-mode");
        assert("request-exit"@.len() != "toggle-mode"@.len());
        reveal_strlit("close-current-document");
        assert("request-exit"@.len() != "close-current-document"@.len());
        reveal_strlit("request-save");
        assert("request-exit"@[8] != "request-save"@[8]);
        reveal_strlit("request-save-as");
        assert("request-exit"@.len() != "request-save-as"@.len());
        reveal_strlit("request-export-pdf");
        assert("request-exit"@.len() != "request-export-pdf"@.len());
        reveal_strlit("request-export-html");
        assert("request-exit"@.len() != "request-export-html"@.len());
        reveal_strlit("request-print");
        assert("request-exit"@.len() != "request-print"@.len());
        reveal_strlit("request-open-find");
        assert("request-exit"@.len() != "request-open-find"@.len());
    }
}

/// The abstract state of the web shell as the event loop knows it.
pub ghost struct ShellView {
    pub ready: bool,
    pub recovery_pending: bool,
    /// The requests kept until the shell is ready, in the order they came.
    pub pending: Seq<OpenPathRequest>,
}

impl View for ShellRuntime {
    type V = ShellView;

    open spec fn view(&self) -> ShellView {
        ShellView {
            ready: self.ready,
            recovery_pending: self.recovery_pending,
            pending: self.pending_open_requests@,
        }
    }
}

/// The shell state after a request to open a file, and the request if it is handed back to be
/// opened now.
pub open spec fn after_open_path(s: ShellView, request: OpenPathRequest) -> (ShellView, Option<
    OpenPathRequest,
>) {
    if s.ready {
        (s, Some(request))
    } else {
        (ShellView { pending: s.pending.push(request), ..s }, None)
    }
}

/// The shell state after it reported that it is ready, whether the open documents are shown
/// again, and the requests handed back to be sent again.
pub open spec fn after_shell_ready(s: ShellView, has_active_document: bool) -> (ShellView, (
    bool,
    Seq<OpenPathRequest>,
)) {
    let reload = (s.ready || s.recovery_pending) && has_active_document;
    (
        ShellView { ready: true, recovery_pending: s.recovery_pending && !reload, pending: Seq::empty() },
        (reload, s.pending),
    )
}

/// The shell state after the requests `requests` came one after another, and the requests
/// handed back on the way, in order.
pub open spec fn after_open_paths(s: ShellView, requests: Seq<OpenPathRequest>) -> (ShellView, Seq<
    OpenPathRequest,
>)
    decreases requests.len(),
{
    if requests.len() == 0 {
        (s, Seq::empty())
    } else {
        let (t, handed) = after_open_paths(s, requests.drop_last());
        let (u, now) = after_open_path(t, requests.last());
        (
            u,
            match now {
                Some(x) => handed.push(x),
                None => handed,
            },
        )
    }
}

proof fn lemma_requests_kept_before_ready(s: ShellView, requests: Seq<OpenPathRequest>)
    requires
        !s.ready,
    ensures
        after_open_paths(s, requests).0 == (ShellView { pending: s.pending + requests, ..s }),
        after_open_paths(s, requests).1 == Seq::<OpenPathRequest>::empty(),
    decreases requests.len(),
{
    if requests.len() > 0 {
        lemma_requests_kept_before_ready(s, requests.drop_last());
        assert(s.pending + requests.drop_last() + seq![requests.last()] =~= s.pending + requests);
        assert((s.pending + requests.drop_last()).push(requests.last()) =~= s.pending + requests);
    } else {
        assert(s.pending + requests =~= s.pending);
    }
}

/// Requests to open files that come before the shell is ready are none of them opened early;
/// when the shell becomes ready they are all handed back once, in the order they came, after
/// those kept before, and none stays kept.
pub proof fn law_requests_before_ready_are_handed_back_in_order(
    s: ShellView,
    requests: Seq<OpenPathRequest>,
    has_active_document: bool,
)
    requires
        !s.ready,
    ensures
        after_open_paths(s, requests).1 == Seq::<OpenPathRequest>::empty(),
        after_shell_ready(after_open_paths(s, requests).0, has_active_document).1.1 == s.pending
            + requests,
        after_shell_ready(after_open_paths(s, requests).0, has_active_document).0.pending
            == Seq::<OpenPathRequest>::empty(),
        after_shell_ready(after_open_paths(s, requests).0, has_active_document).0.ready,
{
    lemma_requests_kept_before_ready(s, requests);
}

impl ShellRuntime {
    /// The shell before it reported anything.
    pub fn new() -> (r: Self)
        ensures
            !r.ready,
            !r.recovery_pending,
            r.pending_open_requests@.len() == 0,
    {
        ShellRuntime { ready: false, recovery_pending: false, pending_open_requests: Vec::new() }
    }

    /// A request to open a file: handed back to be opened now, or kept until the shell is
    /// ready.
    pub fn handle_open_path(&mut self, request: OpenPathRequest) -> (r: Option<OpenPathRequest>)
        ensures
            final(self).ready == old(self).ready,
            final(self).recovery_pending == old(self).recovery_pending,
            old(self).ready ==> r == Some(request) && final(self).pending_open_requests@ == old(
                self,
            ).pending_open_requests@,
            !old(self).ready ==> r is None && final(self).pending_open_requests@ == old(
                self,
            ).pending_open_requests@.push(request),
            (final(self)@, r) == after_open_path(old(self)@, request),
    {
        if self.ready {
            Some(request)
        } else {
            self.pending_open_requests.push(request);
            None
        }
    }

    /// The shell reported that it is ready. The open documents are reloaded and shown again
    /// when the shell had been ready before or was being rebuilt, and a document is open;
    /// the kept requests are handed back to be sent again.
    pub fn handle_shell_ready(&mut self, has_active_document: bool) -> (r: (bool, Vec<OpenPathRequest>))
        ensures
            r.0 == ((old(self).ready || old(self).recovery_pending) && has_active_document),
            r.1@ == old(self).pending_open_requests@,
            final(self).ready,
            final(self).recovery_pending == (old(self).recovery_pending && !r.0),
            final(self).pending_open_requests@.len() == 0,
            (final(self)@, (r.0, r.1@)) == after_shell_ready(old(self)@, has_active_document),
    {
        let was_ready = self.ready;
        self.ready = true;
        let reload = (was_ready || self.recovery_pending) && has_active_document;
        if reload {
            self.recovery_pending = false;
        }
        let mut flushed: Vec<OpenPathRequest> = Vec::new();
        std::mem::swap(&mut flushed, &mut self.pending_open_requests);
        (reload, flushed)
    }

    /// The shell was lost and is being rebuilt.
    pub fn begin_recovery(&mut self)
        ensures
            !final(self).ready,
            final(self).recovery_pending,
            final(self).pending_open_requests@ == old(self).pending_open_requests@,
    {
        self.ready = false;
        self.recovery_pending = true;
    }

    /// Rebuilding the shell failed.
    pub fn recovery_failed(&mut self)
        ensures
            final(self).ready == old(self).ready,
            !final(self).recovery_pending,
            final(self).pending_open_requests@ == old(self).pending_open_requests@,
    {
        self.recovery_pending = false;
    }
}

} // verus!
