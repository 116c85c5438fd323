//! One open Markdown document: its text, the text last saved, the text its read-only preview
//! shows, its mode, and what the interface shows of it.
use vstd::prelude::*;

use crate::file_io::{base_url_of, file_io_base_url};
use crate::paths::{file_name, std_file_name, std_join, path_join, suggested_pdf_export_path, pdf_export_path_of};
use crate::text::{concat3, decimal, line_count, text_metrics, u64_to_string, word_count};

verus! {

/// Whether a document is shown as a rendered preview or edited as source.
#[derive(Clone, Copy, Debug, PartialEq, Eq, Structural)]
pub enum DocumentMode {
    Readonly,
    Writable,
}

/// The other mode.
pub open spec fn toggled(mode: DocumentMode) -> DocumentMode {
    match mode {
        DocumentMode::Readonly => DocumentMode::Writable,
        DocumentMode::Writable => DocumentMode::Readonly,
    }
}

/// The label under which a mode is shown.
pub open spec fn mode_label(mode: DocumentMode) -> Seq<char> {
    match mode {
        DocumentMode::Readonly => "Readonly"@,
        DocumentMode::Writable => "Writable"@,
    }
}

impl DocumentMode {
    /// The other mode.
    pub fn toggle(self) -> (r: Self)
        ensures
            r == toggled(self),
    {
        match self {
            DocumentMode::Readonly => DocumentMode::Writable,
            DocumentMode::Writable => DocumentMode::Readonly,
        }
    }

    /// The label under which the mode is shown.
    pub fn label(self) -> (r: &'static str)
        ensures
            r@ == mode_label(self),
    {
        match self {
            DocumentMode::Readonly => "Readonly",
            DocumentMode::Writable => "Writable",
        }
    }
}

/// Toggling the mode twice gives back the mode one started from.
pub proof fn law_toggle_twice_restores_mode(mode: DocumentMode)
    ensures
        toggled(toggled(mode)) == mode,
{
}

/// The abstract state of a document.
pub ghost struct DocumentView {
    pub id: u64,
    /// A draft has never been saved under a path of the user's choice.
    pub draft: bool,
    pub file_path: Seq<char>,
    pub canonical_path: Seq<char>,
    pub file_name: Seq<char>,
    /// The current text.
    pub markdown: Seq<char>,
    /// The text as it was last loaded or saved.
    pub saved_markdown: Seq<char>,
    /// The text that the read-only preview renders.
    pub preview_markdown: Seq<char>,
    pub base_url: Seq<char>,
    pub mode: DocumentMode,
}

impl DocumentView {
    /// Whether the text differs from what was last loaded or saved.
    pub open spec fn modified(self) -> bool {
        self.markdown != self.saved_markdown
    }

    /// Whether the document has something to save: a draft, or modified text.
    pub open spec fn needs_save(self) -> bool {
        self.draft || self.modified()
    }

    /// The path shown for the document.
    pub open spec fn display_path(self) -> Seq<char> {
        if self.draft {
            "Unsaved draft"@
        } else {
            self.file_path
        }
    }

    /// The save status shown for the document.
    pub open spec fn save_status(self) -> Seq<char> {
        if self.needs_save() {
            "Unsaved"@
        } else {
            "Saved"@
        }
    }

    /// The title of the window that shows the document.
    pub open spec fn window_title(self) -> Seq<char> {
        self.file_name + (if self.needs_save() {
            " *"@
        } else {
            ""@
        }) + " - MarkHola"@
    }
}

/// The document `d` after its mode is switched: entering the preview renders the current
/// text.
pub open spec fn after_toggle(d: DocumentView) -> DocumentView {
    let mode = toggled(d.mode);
    DocumentView {
        mode,
        preview_markdown: if mode == DocumentMode::Readonly {
            d.markdown
        } else {
            d.preview_markdown
        },
        ..d
    }
}

/// Once saved, a document that is no draft has nothing to save, and its preview shows the
/// saved text.
pub proof fn law_saved_document_is_clean(d: DocumentView)
    requires
        !d.draft,
    ensures
        ({
            let s = DocumentView { saved_markdown: d.markdown, preview_markdown: d.markdown, ..d };
            !s.needs_save() && s.preview_markdown == s.markdown
        }),
{
}

/// Editing a document that is no draft back to the text last loaded or saved leaves nothing
/// to save.
pub proof fn law_editing_back_leaves_nothing_to_save(d: DocumentView)
    requires
        !d.draft,
    ensures
        !(DocumentView { markdown: d.saved_markdown, ..d }).needs_save(),
{
}

/// A reload of a document that is no draft leaves the text read, with nothing to save, and
/// the preview shows it.
pub proof fn law_reload_leaves_nothing_to_save(d: DocumentView, text: Seq<char>)
    requires
        !d.draft,
    ensures
        ({
            let r = DocumentView {
                markdown: text,
                saved_markdown: text,
                preview_markdown: text,
                ..d
            };
            !r.needs_save() && r.markdown == text && r.preview_markdown == text
        }),
{
}

/// Switching a previewed document to writing, editing it to `text` and switching back shows
/// `text` in the preview.
pub proof fn law_back_to_preview_shows_the_edit(d: DocumentView, text: Seq<char>)
    requires
        d.mode == DocumentMode::Readonly,
    ensures
        ({
            let edited = DocumentView { markdown: text, ..after_toggle(d) };
            after_toggle(edited).mode == DocumentMode::Readonly && after_toggle(edited).preview_markdown
                == text
        }),
{
}

/// A change that a method of `ActiveDocument` makes to a document.
pub ghost enum DocumentOp {
    /// `update_markdown` with this text.
    Edit(Seq<char>),
    /// `toggle_mode`.
    Toggle,
    /// `mark_saved`.
    MarkSaved,
    /// `reload_from_disk_markdown` with this text.
    Reload(Seq<char>),
    /// `replace_file_path` with this path, canonical path and base URL.
    ReplacePath(Seq<char>, Seq<char>, Seq<char>),
}

/// The document `d` after the change `op`.
pub open spec fn apply_op(d: DocumentView, op: DocumentOp) -> DocumentView {
    match op {
        DocumentOp::Edit(text) => DocumentView { markdown: text, ..d },
        DocumentOp::Toggle => after_toggle(d),
        DocumentOp::MarkSaved => DocumentView {
            saved_markdown: d.markdown,
            preview_markdown: d.markdown,
            ..d
        },
        DocumentOp::Reload(text) => DocumentView {
            markdown: text,
            saved_markdown: text,
            preview_markdown: text,
            ..d
        },
        DocumentOp::ReplacePath(path, canonical_path, base_url) => DocumentView {
            draft: false,
            file_path: path,
            canonical_path,
            file_name: name_or_untitled(path),
            saved_markdown: d.markdown,
            preview_markdown: d.markdown,
            base_url,
            ..d
        },
    }
}

/// The document `d` after the changes `ops`, one after another.
pub open spec fn apply_ops(d: DocumentView, ops: Seq<DocumentOp>) -> DocumentView
    decreases ops.len(),
{
    if ops.len() == 0 {
        d
    } else {
        apply_op(apply_ops(d, ops.drop_last()), ops.last())
    }
}

/// A document is a draft after any changes exactly when it was one before and none of them
/// gave it a path: nothing makes a document a draft again. While it is a draft, it has
/// something to save whatever its text, and its path shows as "Unsaved draft".
pub proof fn law_draft_until_given_a_path(d: DocumentView, ops: Seq<DocumentOp>)
    ensures
        apply_ops(d, ops).draft == (d.draft && forall|i: int|
            0 <= i < ops.len() ==> !(#[trigger] ops[i] is ReplacePath)),
        apply_ops(d, ops).draft ==> apply_ops(d, ops).needs_save() && apply_ops(d, ops).display_path()
            == "Unsaved draft"@,
    decreases ops.len(),
{
    if ops.len() > 0 {
        let before = ops.drop_last();
        law_draft_until_given_a_path(d, before);
        assert forall|i: int| 0 <= i < before.len() implies #[trigger] before[i] == ops[i] by {}
        let n = ops.len() - 1;
        if ops[n] is ReplacePath {
            assert(!(d.draft && forall|i: int| 0 <= i < ops.len() ==> !(#[trigger] ops[i] is ReplacePath)));
        } else {
            assert((forall|i: int| 0 <= i < ops.len() ==> !(#[trigger] ops[i] is ReplacePath)) == (
            forall|i: int| 0 <= i < before.len() ==> !(#[trigger] before[i] is ReplacePath))) by {
                if forall|i: int| 0 <= i < before.len() ==> !(#[trigger] before[i] is ReplacePath) {
                    assert forall|i: int| 0 <= i < ops.len() implies !(#[trigger] ops[i] is ReplacePath) by {
                        if i < n {
                            assert(before[i] == ops[i]);
                        }
                    }
                }
            }
        }
    }
}

/// The window title marks exactly the documents with something to save: a draft is always
/// marked; a document that is no draft is marked once its text is edited away from what was last
/// loaded or saved, and unmarked once saved or reloaded.
pub proof fn law_window_title_marks_unsaved_changes(d: DocumentView, text: Seq<char>)
    ensures
        d.draft ==> d.window_title() == d.file_name + " * - MarkHola"@,
        !d.draft && d.markdown == d.saved_markdown ==> d.window_title() == d.file_name
            + " - MarkHola"@,
        !d.draft && text != d.saved_markdown ==> apply_op(d, DocumentOp::Edit(text)).window_title()
            == d.file_name + " * - MarkHola"@,
        !d.draft ==> apply_op(d, DocumentOp::MarkSaved).window_title() == d.file_name
            + " - MarkHola"@,
        !d.draft ==> apply_op(d, DocumentOp::Reload(text)).window_title() == d.file_name
            + " - MarkHola"@,
{
    assert(" *"@ + " - MarkHola"@ =~= " * - MarkHola"@) by {
        reveal_strlit(" *");
        reveal_strlit(" - MarkHola");
        reveal_strlit(" * - MarkHola");
    }
    assert(""@ + " - MarkHola"@ =~= " - MarkHola"@) by {
        reveal_strlit("");
    }
    assert(d.file_name + " *"@ + " - MarkHola"@ =~= d.file_name + " * - MarkHola"@);
    assert(d.file_name + ""@ + " - MarkHola"@ =~= d.file_name + " - MarkHola"@);
}

/// The name under which the document at `path` is shown.
pub open spec fn name_or_untitled(path: Seq<char>) -> Seq<char> {
    match std_file_name(path) {
        Some(n) => n,
        None => "Untitled"@,
    }
}

/// The path of the draft with number `id` in the directory `dir`.
pub open spec fn draft_path(dir: Seq<char>, id: u64) -> Seq<char> {
    std_join(dir, ".markhola-draft-"@ + decimal(id as nat) + ".md"@)
}

/// The base URL of a document, or the empty string where it has none.
pub open spec fn base_url_or_empty(path: Seq<char>) -> Seq<char> {
    match base_url_of(path) {
        Some(u) => u,
        None => Seq::empty(),
    }
}

/// An open document.
pub struct ActiveDocument {
    id: u64,
    draft: bool,
    file_path: String,
    canonical_path: String,
    file_name: String,
    markdown: String,
    saved_markdown: String,
    preview_markdown: String,
    base_url: String,
    word_count: usize,
    line_count: usize,
    mode: DocumentMode,
    dirty: bool,
}

/// What the interface shows of the active document.
pub struct DocumentSnapshot {
    pub document_id: u64,
    pub file_name: String,
    pub file_path: String,
    pub base_url: String,
    pub word_count: usize,
    pub line_count: usize,
    /// The text that the read-only preview renders.
    pub preview_markdown: String,
    pub markdown: String,
    pub mode: DocumentMode,
    pub mode_label: &'static str,
    pub dirty: bool,
    pub save_status: &'static str,
}

/// What a tab shows of a document.
pub struct DocumentTabSnapshot {
    pub document_id: u64,
    pub file_name: String,
    pub dirty: bool,
    pub active: bool,
    pub mode: DocumentMode,
}

/// `s` shows the document `d`.
pub open spec fn describes(s: DocumentSnapshot, d: DocumentView) -> bool {
    &&& s.document_id == d.id
    &&& s.file_name@ == d.file_name
    &&& s.file_path@ == d.display_path()
    &&& s.base_url@ == d.base_url
    &&& s.word_count == word_count(d.markdown)
    &&& s.line_count == line_count(d.markdown)
    &&& s.preview_markdown@ == d.preview_markdown
    &&& s.markdown@ == d.markdown
    &&& s.mode == d.mode
    &&& s.mode_label@ == mode_label(d.mode)
    &&& s.dirty == d.needs_save()
    &&& s.save_status@ == d.save_status()
}

/// `t` shows the document `d` as a tab, active or not.
pub open spec fn tab_describes(t: DocumentTabSnapshot, d: DocumentView, active: bool) -> bool {
    &&& t.document_id == d.id
    &&& t.file_name@ == d.file_name
    &&& t.dirty == d.needs_save()
    &&& t.active == active
    &&& t.mode == d.mode
}

impl View for ActiveDocument {
    type V = DocumentView;

    closed spec fn view(&self) -> DocumentView {
        DocumentView {
            id: self.id,
            draft: self.draft,
            file_path: self.file_path@,
            canonical_path: self.canonical_path@,
            file_name: self.file_name@,
            markdown: self.markdown@,
            saved_markdown: self.saved_markdown@,
            preview_markdown: self.preview_markdown@,
            base_url: self.base_url@,
            mode: self.mode,
        }
    }
}

impl ActiveDocument {
    /// The counts and the modified flag agree with the text.
    #[verifier::type_invariant]
    closed spec fn wf(self) -> bool {
        &&& self.word_count == word_count(self.markdown@)
        &&& self.line_count == line_count(self.markdown@)
        &&& self.dirty == (self.markdown@ != self.saved_markdown@)
    }

    fn assemble(
        id: u64,
        draft: bool,
        file_path: String,
        canonical_path: String,
        file_name: String,
        markdown: String,
        saved_markdown: String,
        preview_markdown: String,
        base_url: String,
        mode: DocumentMode,
    ) -> (r: Self)
        ensures
            r@ == (DocumentView {
                id,
                draft,
                file_path: file_path@,
                canonical_path: canonical_path@,
                file_name: file_name@,
                markdown: markdown@,
                saved_markdown: saved_markdown@,
                preview_markdown: preview_markdown@,
                base_url: base_url@,
                mode,
            }),
    {
        let (word_count, line_count) = text_metrics(markdown.as_str());
        let dirty = markdown != saved_markdown;
        ActiveDocument {
            id,
            draft,
            file_path,
            canonical_path,
            file_name,
            markdown,
            saved_markdown,
            preview_markdown,
            base_url,
            word_count,
            line_count,
            mode,
            dirty,
        }
    }

    /// A document loaded from `path` (which the file system resolves to `canonical_path`),
    /// shown read-only.
    pub fn open_with_id(
        id: u64,
        path: String,
        canonical_path: String,
        markdown: String,
        base_url: String,
    ) -> (r: Self)
        ensures
            r@ == (DocumentView {
                id,
                draft: false,
                file_path: path@,
                canonical_path: canonical_path@,
                file_name: name_or_untitled(path@),
                markdown: markdown@,
                saved_markdown: markdown@,
                preview_markdown: markdown@,
                base_url: base_url@,
                mode: DocumentMode::Readonly,
            }),
    {
        let name = match file_name(path.as_str()) {
            Some(n) => n,
            None => String::from_str("Untitled"),
        };
        let saved = markdown.clone();
        let preview = markdown.clone();
        Self::assemble(
            id,
            false,
            path,
            canonical_path,
            name,
            markdown,
            saved,
            preview,
            base_url,
            DocumentMode::Readonly,
        )
    }

    /// An empty, writable draft, kept under a hidden name in `directory` until it is saved.
    pub fn new_blank_with_id(id: u64, directory: &str) -> (r: Self)
        ensures
            r@ == (DocumentView {
                id,
                draft: true,
                file_path: draft_path(directory@, id),
                canonical_path: draft_path(directory@, id),
                file_name: "Untitled"@,
                markdown: Seq::empty(),
                saved_markdown: Seq::empty(),
                preview_markdown: Seq::empty(),
                base_url: base_url_or_empty(draft_path(directory@, id)),
                mode: DocumentMode::Writable,
            }),
    {
        let number = u64_to_string(id);
        let name = concat3(".markhola-draft-", number.as_str(), ".md");
        let path = path_join(directory, name.as_str());
        let base_url = file_io_base_url(path.as_str());
        let canonical = path.clone();
        Self::assemble(
            id,
            true,
            path,
            canonical,
            String::from_str("Untitled"),
            String::new(),
            String::new(),
            String::new(),
            base_url,
            DocumentMode::Writable,
        )
    }

    /// The text that the read-only preview renders.
    pub fn preview_markdown(&self) -> (r: &str)
        ensures
            r@ == self@.preview_markdown,
    {
        self.preview_markdown.as_str()
    }

    /// What the interface shows of the document.
    pub fn snapshot(&self) -> (r: DocumentSnapshot)
        ensures
            describes(r, self@),
    {
        proof {
            use_type_invariant(self);
        }
        let dirty = self.needs_save();
        DocumentSnapshot {
            document_id: self.id,
            file_name: self.file_name.clone(),
            file_path: self.display_path(),
            base_url: self.base_url.clone(),
            word_count: self.word_count,
            line_count: self.line_count,
            preview_markdown: self.preview_markdown.clone(),
            markdown: self.markdown.clone(),
            mode: self.mode,
            mode_label: self.mode.label(),
            dirty,
            save_status: if dirty {
                "Unsaved"
            } else {
                "Saved"
            },
        }
    }

    /// What a tab shows of the document.
    pub fn tab_snapshot(&self, active: bool) -> (r: DocumentTabSnapshot)
        ensures
            tab_describes(r, self@, active),
    {
        DocumentTabSnapshot {
            document_id: self.id,
            file_name: self.file_name.clone(),
            dirty: self.needs_save(),
            active,
            mode: self.mode,
        }
    }

    pub fn id(&self) -> (r: u64)
        ensures
            r == self@.id,
    {
        self.id
    }

    pub fn file_path(&self) -> (r: &str)
        ensures
            r@ == self@.file_path,
    {
        self.file_path.as_str()
    }

    pub fn canonical_path(&self) -> (r: &str)
        ensures
            r@ == self@.canonical_path,
    {
        self.canonical_path.as_str()
    }

    pub fn file_name(&self) -> (r: &str)
        ensures
            r@ == self@.file_name,
    {
        self.file_name.as_str()
    }

    pub fn markdown(&self) -> (r: &str)
        ensures
            r@ == self@.markdown,
    {
        self.markdown.as_str()
    }

    pub fn base_url(&self) -> (r: &str)
        ensures
            r@ == self@.base_url,
    {
        self.base_url.as_str()
    }

    pub fn mode(&self) -> (r: DocumentMode)
        ensures
            r == self@.mode,
    {
        self.mode
    }

    /// Whether the document has something to save.
    pub fn is_dirty(&self) -> (r: bool)
        ensures
            r == self@.needs_save(),
    {
        self.needs_save()
    }

    pub fn is_draft(&self) -> (r: bool)
        ensures
            r == self@.draft,
    {
        self.draft
    }

    /// Where a PDF export of the document is suggested to go.
    pub fn suggested_pdf_export_path(&self) -> (r: String)
        ensures
            r@ == pdf_export_path_of(self@.file_path),
    {
        suggested_pdf_export_path(self.file_path.as_str())
    }

    /// Replaces the text, as the editor reports it.
    pub fn update_markdown(&mut self, markdown: String)
        ensures
            final(self)@ == (DocumentView { markdown: markdown@, ..old(self)@ }),
            final(self)@ == apply_op(old(self)@, DocumentOp::Edit(markdown@)),
    {
        let next = Self::assemble(
            self.id,
            self.draft,
            self.file_path.clone(),
            self.canonical_path.clone(),
            self.file_name.clone(),
            markdown,
            self.saved_markdown.clone(),
            self.preview_markdown.clone(),
            self.base_url.clone(),
            self.mode,
        );
        *self = next;
    }

    /// Switches between preview and editing; entering the preview renders the current text.
    pub fn toggle_mode(&mut self)
        ensures
            final(self)@ == after_toggle(old(self)@),
            final(self)@ == apply_op(old(self)@, DocumentOp::Toggle),
    {
        proof {
            use_type_invariant(&*self);
        }
        self.mode = self.mode.toggle();
        if self.mode == DocumentMode::Readonly {
            self.preview_markdown = self.markdown.clone();
        }
    }

    /// Records that the current text has been written to the document's file.
    pub fn mark_saved(&mut self)
        ensures
            final(self)@ == (DocumentView {
                saved_markdown: old(self)@.markdown,
                preview_markdown: old(self)@.markdown,
                ..old(self)@
            }),
            final(self)@ == apply_op(old(self)@, DocumentOp::MarkSaved),
    {
        let next = Self::assemble(
            self.id,
            self.draft,
            self.file_path.clone(),
            self.canonical_path.clone(),
            self.file_name.clone(),
            self.markdown.clone(),
            self.markdown.clone(),
            self.markdown.clone(),
            self.base_url.clone(),
            self.mode,
        );
        *self = next;
    }

    /// Replaces the text by what the file holds now, discarding unsaved edits.
    pub fn reload_from_disk_markdown(&mut self, markdown: String)
        ensures
            final(self)@ == (DocumentView {
                markdown: markdown@,
                saved_markdown: markdown@,
                preview_markdown: markdown@,
                ..old(self)@
            }),
            final(self)@ == apply_op(old(self)@, DocumentOp::Reload(markdown@)),
    {
        let saved = markdown.clone();
        let preview = markdown.clone();
        let next = Self::assemble(
            self.id,
            self.draft,
            self.file_path.clone(),
            self.canonical_path.clone(),
            self.file_name.clone(),
            markdown,
            saved,
            preview,
            self.base_url.clone(),
            self.mode,
        );
        *self = next;
    }

    /// Records that the text has been saved under a new path, which the file system resolves
    /// to `canonical_path`; the document is no longer a draft.
    pub fn replace_file_path(&mut self, path: String, canonical_path: String, base_url: String)
        ensures
            final(self)@ == (DocumentView {
                draft: false,
                file_path: path@,
                canonical_path: canonical_path@,
                file_name: name_or_untitled(path@),
                saved_markdown: old(self)@.markdown,
                preview_markdown: old(self)@.markdown,
                base_url: base_url@,
                ..old(self)@
            }),
            final(self)@ == apply_op(
                old(self)@,
                DocumentOp::ReplacePath(path@, canonical_path@, base_url@),
            ),
    {
        let name = match file_name(path.as_str()) {
            Some(n) => n,
            None => String::from_str("Untitled"),
        };
        let next = Self::assemble(
            self.id,
            false,
            path,
            canonical_path,
            name,
            self.markdown.clone(),
            self.markdown.clone(),
            self.markdown.clone(),
            base_url,
            self.mode,
        );
        *self = next;
    }

    /// The title of the window that shows the document.
    pub fn window_title(&self) -> (r: String)
        ensures
            r@ == self@.window_title(),
    {
        let marker = if self.needs_save() {
            " *"
        } else {
            ""
        };
        concat3(self.file_name.as_str(), marker, " - MarkHola")
    }

    fn needs_save(&self) -> (r: bool)
        ensures
            r == self@.needs_save(),
    {
        proof {
            use_type_invariant(self);
        }
        self.draft || self.dirty
    }

    fn display_path(&self) -> (r: String)
        ensures
            r@ == self@.display_path(),
    {
        if self.draft {
            String::from_str("Unsaved draft")
        } else {
            self.file_path.clone()
        }
    }
}

} // verus!
