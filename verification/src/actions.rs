//! The document actions of the application that decide something: reloading the open
//! documents from disk, saving, and what the interface is handed to show. The file system and
//! the dialogs stay with the application, which hands the outcomes in.
use vstd::prelude::*;

use crate::document::{ActiveDocument, DocumentMode, DocumentSnapshot, DocumentTabSnapshot, DocumentView, describes, name_or_untitled, tab_describes};
use crate::file_io::{base_url_error, base_url_of, directory_base_url};
use crate::paths::{parent, std_parent};
use crate::printing::PrintOutcome;
use crate::text::{concat, concat3, decimal, u64_to_string};
use crate::assets::{register_document, AssetRegistry};
use crate::document::{after_toggle, toggled};
use crate::workspace::{
    has_pending_changes, lemma_first_where_found, lemma_first_where_some, meets, next_position, position_of_id, position_of_path, previous_position,
    Criterion, DocumentWorkspace, WorkspaceOpenResult, WorkspaceView,
};

verus! {

// ---------------------------------------------------------------------------
// Reloading from disk

/// A document that a reload reads again, and where its file is.
pub struct ReloadTarget {
    pub document_id: u64,
    pub path: String,
}

/// What reading the file of a document gave: its text, or why it could not be read.
pub struct DiskRead {
    pub document_id: u64,
    pub path: String,
    pub outcome: Result<String, String>,
}

/// A read, as plain values.
pub ghost struct ReadView {
    pub document_id: u64,
    pub path: Seq<char>,
    pub outcome: Result<Seq<char>, Seq<char>>,
}

pub open spec fn read_view(r: DiskRead) -> ReadView {
    ReadView {
        document_id: r.document_id,
        path: r.path@,
        outcome: match r.outcome {
            Ok(t) => Ok(t@),
            Err(e) => Err(e@),
        },
    }
}

/// The documents that a reload reads again: those with nothing to save, in tab order.
pub open spec fn reload_targets_of(docs: Seq<DocumentView>) -> Seq<(u64, Seq<char>)>
    decreases docs.len(),
{
    if docs.len() == 0 {
        Seq::empty()
    } else {
        let rest = reload_targets_of(docs.drop_last());
        if docs.last().needs_save() {
            rest
        } else {
            rest.push((docs.last().id, docs.last().file_path))
        }
    }
}

/// The number of documents with something to save; a reload keeps them as they are.
pub open spec fn kept_count(docs: Seq<DocumentView>) -> nat
    decreases docs.len(),
{
    if docs.len() == 0 {
        0
    } else {
        kept_count(docs.drop_last()) + if docs.last().needs_save() {
            1nat
        } else {
            0nat
        }
    }
}

/// `d` with its text replaced by `text`, as loaded from disk.
pub open spec fn reloaded(d: DocumentView, text: Seq<char>) -> DocumentView {
    DocumentView { markdown: text, saved_markdown: text, preview_markdown: text, ..d }
}

/// The documents after the successful reads among `reads` have been applied, in order, each
/// to the first document with its number, unless that document has something to save.
pub open spec fn apply_reads(docs: Seq<DocumentView>, reads: Seq<ReadView>) -> Seq<DocumentView>
    decreases reads.len(),
{
    if reads.len() == 0 {
        docs
    } else {
        let before = apply_reads(docs, reads.drop_last());
        let r = reads.last();
        match r.outcome {
            Ok(text) => match position_of_id(before, r.document_id) {
                Some(i) => if before[i].needs_save() {
                    before
                } else {
                    before.update(i, reloaded(before[i], text))
                },
                None => before,
            },
            Err(_) => before,
        }
    }
}

/// A reload never touches a document with unsaved changes (or a draft): whatever was read,
/// such a document stays as it was, and no document is added or dropped.
pub proof fn law_reload_keeps_unsaved_documents(docs: Seq<DocumentView>, reads: Seq<ReadView>)
    ensures
        apply_reads(docs, reads).len() == docs.len(),
        forall|i: int|
            0 <= i < docs.len() && (#[trigger] docs[i]).needs_save() ==> apply_reads(docs, reads)[i]
                == docs[i],
    decreases reads.len(),
{
    if reads.len() > 0 {
        law_reload_keeps_unsaved_documents(docs, reads.drop_last());
        let before = apply_reads(docs, reads.drop_last());
        let r = reads.last();
        lemma_first_where_found(before, Criterion::Id(r.document_id));
        if let Ok(text) = r.outcome {
            if let Some(k) = position_of_id(before, r.document_id) {
                if !before[k].needs_save() {
                    assert(apply_reads(docs, reads) == before.update(k, reloaded(before[k], text)));
                    assert forall|i: int|
                        0 <= i < docs.len() && (#[trigger] docs[i]).needs_save() implies apply_reads(
                        docs,
                        reads,
                    )[i] == docs[i] by {
                        if i == k {
                            assert(before[i] == docs[i]);
                        }
                    }
                } else {
                    assert(apply_reads(docs, reads) == before);
                }
            } else {
                assert(apply_reads(docs, reads) == before);
            }
        } else {
            assert(apply_reads(docs, reads) == before);
        }
    }
}

/// The report of the first read that failed, if any.
pub open spec fn first_failure(reads: Seq<ReadView>) -> Option<Seq<char>>
    decreases reads.len(),
{
    if reads.len() == 0 {
        None
    } else {
        match first_failure(reads.drop_last()) {
            Some(f) => Some(f),
            None => match reads.last().outcome {
                Err(e) => Some(reads.last().path + ": "@ + e),
                Ok(_) => None,
            },
        }
    }
}

/// The status shown after a reload that kept `kept` documents with unsaved changes.
pub open spec fn reload_status(kept: nat) -> Seq<char> {
    if kept == 0 {
        "Document reloaded."@
    } else if kept == 1 {
        "Document reloaded. One unsaved tab was kept as-is."@
    } else {
        "Document reloaded. "@ + decimal(kept) + " unsaved tabs were kept as-is."@
    }
}

/// The status shown after a reload that reloaded `reloaded` documents and kept `skipped_dirty`
/// documents with unsaved changes.
pub fn reload_status_message(reloaded: usize, skipped_dirty: usize) -> (r: String)
    ensures
        r@ == reload_status(skipped_dirty as nat),
{
    if skipped_dirty == 0 {
        String::from_str("Document reloaded.")
    } else if skipped_dirty == 1 {
        String::from_str("Document reloaded. One unsaved tab was kept as-is.")
    } else {
        let count = u64_to_string(skipped_dirty as u64);
        concat3("Document reloaded. ", count.as_str(), " unsaved tabs were kept as-is.")
    }
}

impl DocumentWorkspace {
    /// The documents that a reload reads again: those with nothing to save, in tab order.
    pub fn reload_targets(&self) -> (r: Vec<ReloadTarget>)
        ensures
            r@.map_values(|t: ReloadTarget| (t.document_id, t.path@)) == reload_targets_of(
                self@.documents,
            ),
    {
        let ids = self.document_ids();
        let mut r: Vec<ReloadTarget> = Vec::new();
        let mut i: usize = 0;
        while i < self.document_count()
            invariant
                i <= self@.documents.len(),
                r@.map_values(|t: ReloadTarget| (t.document_id, t.path@)) == reload_targets_of(
                    self@.documents.take(i as int),
                ),
            decreases self@.documents.len() - i,
        {
            let d = self.document_at(i);
            let ghost before = r@;
            if !d.is_dirty() {
                r.push(ReloadTarget { document_id: d.id(), path: String::from_str(d.file_path()) });
            }
            assert(self@.documents.take(i + 1).drop_last() =~= self@.documents.take(i as int));
            assert(r@.map_values(|t: ReloadTarget| (t.document_id, t.path@)) =~= reload_targets_of(
                self@.documents.take(i + 1),
            ));
            i += 1;
        }
        assert(self@.documents.take(i as int) =~= self@.documents);
        r
    }

    /// The number of documents with something to save.
    pub fn kept_document_count(&self) -> (r: usize)
        ensures
            r == kept_count(self@.documents),
    {
        let mut count: usize = 0;
        let mut i: usize = 0;
        while i < self.document_count()
            invariant
                i <= self@.documents.len(),
                count == kept_count(self@.documents.take(i as int)),
                count <= i,
            decreases self@.documents.len() - i,
        {
            let d = self.document_at(i);
            assert(self@.documents.take(i + 1).drop_last() =~= self@.documents.take(i as int));
            if d.is_dirty() {
                count += 1;
            }
            i += 1;
        }
        assert(self@.documents.take(i as int) =~= self@.documents);
        count
    }
}

/// Applies what reading the files of the documents gave (see `reload_targets`): each text
/// read replaces that of its document; the first failure is reported, else how many documents
/// with unsaved changes were kept.
pub fn reload_workspace_documents_from_disk(workspace: &mut DocumentWorkspace, reads: Vec<DiskRead>) -> (r:
    Result<String, String>)
    requires
        old(workspace)@.wf(),
    ensures
        final(workspace)@.wf(),
        final(workspace)@ == (WorkspaceView {
            documents: apply_reads(old(workspace)@.documents, reads@.map_values(|r: DiskRead| read_view(r))),
            ..old(workspace)@
        }),
        first_failure(reads@.map_values(|r: DiskRead| read_view(r))) matches Some(f) ==> (r matches Err(
            e,
        ) && e@ == "Reload failed: "@ + f),
        first_failure(reads@.map_values(|r: DiskRead| read_view(r))) is None ==> (r matches Ok(s)
            && s@ == reload_status(kept_count(old(workspace)@.documents))),
{
    let kept = workspace.kept_document_count();
    let ghost views = reads@.map_values(|r: DiskRead| read_view(r));
    let mut failure: Option<String> = None;
    let mut i: usize = 0;
    while i < reads.len()
        invariant
            i <= reads@.len(),
            views == reads@.map_values(|r: DiskRead| read_view(r)),
            workspace@.wf(),
            workspace@ == (WorkspaceView {
                documents: apply_reads(old(workspace)@.documents, views.take(i as int)),
                ..old(workspace)@
            }),
            failure matches Some(f) ==> first_failure(views.take(i as int)) == Some(f@),
            failure is None ==> first_failure(views.take(i as int)) is None,
        decreases reads@.len() - i,
    {
        let read = &reads[i];
        assert(views.take(i + 1).drop_last() =~= views.take(i as int));
        assert(views.take(i + 1).last() == read_view(*read));
        match &read.outcome {
            Ok(text) => {
                let ghost before = workspace@;
                match workspace.document_by_id_mut(read.document_id) {
                    Some(d) => {
                        if !d.is_dirty() {
                            d.reload_from_disk_markdown(text.clone());
                        }
                    },
                    None => {},
                }
                proof {
                    lemma_first_where_found(before.documents, Criterion::Id(read.document_id));
                    if let Some(k) = position_of_id(before.documents, read.document_id) {
                        if before.documents[k].needs_save() {
                            assert(workspace@.documents =~= before.documents);
                        }
                    }
                }
            },
            Err(error) => {
                if failure.is_none() {
                    failure = Some(concat3(read.path.as_str(), ": ", error.as_str()));
                }
            },
        }
        i += 1;
    }
    assert(views.take(i as int) =~= views);
    match failure {
        Some(f) => Err(concat("Reload failed: ", f.as_str())),
        None => Ok(reload_status_message(0, kept)),
    }
}

// ---------------------------------------------------------------------------
// Saving

/// A draft has no file of its own yet: saving it in place is refused.
pub fn check_save_in_place(document: &ActiveDocument) -> (r: Result<(), String>)
    ensures
        r is Ok <==> !document@.draft,
        r matches Err(e) ==> e@ == "Draft documents must choose a save path first."@,
{
    if document.is_draft() {
        Err(String::from_str("Draft documents must choose a save path first."))
    } else {
        Ok(())
    }
}

/// Completes a save in place once writing the file gave `written`: a draft is refused and
/// left as it was; otherwise, on success the current text is the saved one, and on failure
/// the document is left as it was and the error passed on.
pub fn save_document(document: &mut ActiveDocument, written: Result<(), String>) -> (r: Result<
    (),
    String,
>)
    ensures
        old(document)@.draft ==> (r matches Err(e)
            && e@ == "Draft documents must choose a save path first."@) && final(document)@ == old(
            document,
        )@,
        !old(document)@.draft && written is Ok ==> r is Ok && final(document)@ == (DocumentView {
            saved_markdown: old(document)@.markdown,
            preview_markdown: old(document)@.markdown,
            ..old(document)@
        }),
        !old(document)@.draft && written is Err ==> (written matches Err(e) && r matches Err(f)
            && f@ == e@) && final(document)@ == old(document)@,
{
    if document.is_draft() {
        return Err(String::from_str("Draft documents must choose a save path first."));
    }
    match written {
        Ok(()) => {
            document.mark_saved();
            Ok(())
        },
        Err(e) => Err(e),
    }
}

/// Opens the document `document_id` from `path`, which the file system resolved to
/// `canonical_path` and whose reading gave `markdown`: a failed read or a path without a base
/// URL is passed on as the error.
pub fn load_document(
    document_id: u64,
    path: String,
    canonical_path: String,
    markdown: Result<String, String>,
) -> (r: Result<ActiveDocument, String>)
    ensures
        markdown matches Err(e) ==> r matches Err(f) && f@ == e@,
        markdown matches Ok(m) ==> match base_url_of(path@) {
            Some(u) => r matches Ok(d) && d@ == (DocumentView {
                id: document_id,
                draft: false,
                file_path: path@,
                canonical_path: canonical_path@,
                file_name: name_or_untitled(path@),
                markdown: m@,
                saved_markdown: m@,
                preview_markdown: m@,
                base_url: u,
                mode: DocumentMode::Readonly,
            }),
            None => r matches Err(f) && f@ == base_url_error(path@),
        },
{
    let markdown = match markdown {
        Ok(m) => m,
        Err(e) => {
            return Err(e);
        },
    };
    let base_url = match directory_base_url(path.as_str()) {
        Ok(u) => u,
        Err(e) => {
            return Err(e);
        },
    };
    Ok(ActiveDocument::open_with_id(document_id, path, canonical_path, markdown, base_url))
}

/// The document `d` once saved under the new path `path`, resolved to `canonical_path`, with
/// the base URL `base_url`.
pub open spec fn saved_as(
    d: DocumentView,
    path: Seq<char>,
    canonical_path: Seq<char>,
    base_url: Seq<char>,
) -> DocumentView {
    DocumentView {
        draft: false,
        file_path: path,
        canonical_path,
        file_name: name_or_untitled(path),
        saved_markdown: d.markdown,
        preview_markdown: d.markdown,
        base_url,
        ..d
    }
}

/// Completes "Save As" of the active document to `path` (which the file system resolves to
/// `canonical_path`) once writing the file gave `written`: the status line, or the error with
/// the workspace left as it was.
pub fn finish_save_as(
    workspace: &mut DocumentWorkspace,
    path: String,
    canonical_path: String,
    written: Result<(), String>,
) -> (r: Result<&'static str, String>)
    requires
        old(workspace)@.wf(),
    ensures
        final(workspace)@.wf(),
        written matches Err(e) ==> (r matches Err(m) && m@ == e@) && final(workspace)@ == old(workspace)@,
        written is Ok && base_url_of(path@) is None ==> (r matches Err(m)
            && m@ == "Document directory cannot be converted to a file URL."@) && final(workspace)@
            == old(workspace)@,
        written is Ok && base_url_of(path@) is Some && old(workspace)@.active is None ==> (
            r matches Err(m) && m@ == "No document to save."@) && final(workspace)@ == old(workspace)@,
        written is Ok ==> match (base_url_of(path@), old(workspace)@.active) {
            (Some(u), Some(i)) => (r matches Ok(s) && s@ == "Saved to new path."@) && final(workspace)@
                == (WorkspaceView {
                documents: old(workspace)@.documents.update(
                    i,
                    saved_as(old(workspace)@.documents[i], path@, canonical_path@, u),
                ),
                ..old(workspace)@
            }),
            _ => true,
        },
{
    match written {
        Ok(()) => {},
        Err(e) => {
            return Err(e);
        },
    }
    let base_url = match directory_base_url(path.as_str()) {
        Ok(u) => u,
        Err(_) => {
            return Err(String::from_str("Document directory cannot be converted to a file URL."));
        },
    };
    match workspace.active_document_mut() {
        Some(document) => {
            document.replace_file_path(path, canonical_path, base_url);
            Ok("Saved to new path.")
        },
        None => Err(String::from_str("No document to save.")),
    }
}

/// What the user chose to do with unsaved changes before a tab closes or the application
/// exits.
#[derive(Clone, Copy, Debug, PartialEq, Eq, Structural)]
pub enum PendingChangesAction {
    Save,
    Discard,
    Cancel,
}

/// Settles the unsaved changes of `document`, for which the user chose `action`; where that
/// was to save, writing the file gave `written`. `Ok` where the tab may close, else the status
/// line that explains why not.
pub fn resolve_document_pending_changes(
    document: &mut ActiveDocument,
    action: PendingChangesAction,
    written: Result<(), String>,
) -> (r: Result<(), StatusReport>)
    ensures
        !old(document)@.needs_save() ==> r is Ok && final(document)@ == old(document)@,
        old(document)@.needs_save() && action == PendingChangesAction::Discard ==> r is Ok
            && final(document)@ == old(document)@,
        old(document)@.needs_save() && action == PendingChangesAction::Cancel ==> (r matches Err(s)
            && plain_status(s, "Action cancelled."@, StatusLevel::Info)) && final(document)@ == old(
            document,
        )@,
        old(document)@.needs_save() && action == PendingChangesAction::Save ==> {
            &&& old(document)@.draft ==> (r matches Err(s) && plain_status(
                s,
                "Draft documents must choose a save path first."@,
                StatusLevel::Error,
            )) && final(document)@ == old(document)@
            &&& !old(document)@.draft && written is Ok ==> r is Ok && final(document)@ == (
            DocumentView {
                saved_markdown: old(document)@.markdown,
                preview_markdown: old(document)@.markdown,
                ..old(document)@
            })
            &&& !old(document)@.draft && written is Err ==> (written matches Err(e) && r matches Err(
                s,
            ) && plain_status(s, e@, StatusLevel::Error)) && final(document)@ == old(document)@
        },
{
    if !document.is_dirty() {
        return Ok(());
    }
    match action {
        PendingChangesAction::Save => match save_document(document, written) {
            Ok(()) => Ok(()),
            Err(message) => Err(plain_report(message, StatusLevel::Error)),
        },
        PendingChangesAction::Discard => Ok(()),
        PendingChangesAction::Cancel => Err(
            plain_report(String::from_str("Action cancelled."), StatusLevel::Info),
        ),
    }
}

/// What "Save As" keeps of the active document while the dialog is open.
pub struct SaveAsSnapshot {
    pub document_id: u64,
    /// The directory the dialog starts in.
    pub directory: String,
    pub file_name: String,
    pub markdown: String,
}

impl SaveAsSnapshot {
    /// The snapshot of `document`: the dialog starts in the directory of its file.
    pub fn from_document(document: &ActiveDocument) -> (r: Self)
        ensures
            r.document_id == document@.id,
            std_parent(document@.file_path) matches Some(p) ==> r.directory@ == p,
            std_parent(document@.file_path) is None ==> r.directory@ == document@.file_path,
            r.file_name@ == document@.file_name,
            r.markdown@ == document@.markdown,
    {
        let directory = match parent(document.file_path()) {
            Some(p) => p,
            None => String::from_str(document.file_path()),
        };
        SaveAsSnapshot {
            document_id: document.id(),
            directory,
            file_name: String::from_str(document.file_name()),
            markdown: String::from_str(document.markdown()),
        }
    }
}

// ---------------------------------------------------------------------------
// What the interface is handed

/// The tabs, the active document and the status line.
pub struct WorkspacePresentation {
    pub tabs: Vec<DocumentTabSnapshot>,
    pub active_document: Option<DocumentSnapshot>,
    pub status_message: String,
}

/// What the interface shows of `workspace`, with `status` in the status line.
pub fn workspace_presentation(workspace: &DocumentWorkspace, status: &str) -> (r: WorkspacePresentation)
    requires
        workspace@.wf(),
    ensures
        r.tabs@.len() == workspace@.documents.len(),
        forall|i: int|
            0 <= i < r.tabs@.len() ==> tab_describes(
                #[trigger] r.tabs@[i],
                workspace@.documents[i],
                workspace@.active == Some(i),
            ),
        r.active_document matches Some(s) ==> (workspace@.active_document() matches Some(d)
            && describes(s, d)),
        r.active_document is None ==> workspace@.active_document() is None,
        r.status_message@ == status@,
{
    WorkspacePresentation {
        tabs: workspace.tab_snapshots(),
        active_document: workspace.active_document_snapshot(),
        status_message: String::from_str(status),
    }
}

// ---------------------------------------------------------------------------
// Requests on the workspace and the status line that follows them

/// Switches the mode of the active document, and gives the status line that follows;
/// `None` where no document is open.
pub fn toggle_active_mode(workspace: &mut DocumentWorkspace) -> (r: Option<&'static str>)
    requires
        old(workspace)@.wf(),
    ensures
        final(workspace)@.wf(),
        old(workspace)@.active is None ==> r is None && final(workspace)@ == old(workspace)@,
        old(workspace)@.active matches Some(i) ==> (final(workspace)@ == (WorkspaceView {
            documents: old(workspace)@.documents.update(i, after_toggle(old(workspace)@.documents[i])),
            ..old(workspace)@
        }) && (r matches Some(s) && s@ == (if toggled(old(workspace)@.documents[i].mode)
            == DocumentMode::Readonly {
            "Readonly preview updated."@
        } else {
            "Writable mode enabled."@
        }))),
{
    match workspace.active_document_mut() {
        Some(document) => {
            document.toggle_mode();
            let status = match document.mode() {
                DocumentMode::Readonly => "Readonly preview updated.",
                DocumentMode::Writable => "Writable mode enabled.",
            };
            Some(status)
        },
        None => None,
    }
}

/// Takes the text `markdown` of the editor into the active document; `false` where no
/// document is open.
pub fn editor_changed(workspace: &mut DocumentWorkspace, markdown: String) -> (r: bool)
    requires
        old(workspace)@.wf(),
    ensures
        final(workspace)@.wf(),
        r == old(workspace)@.active is Some,
        old(workspace)@.active is None ==> final(workspace)@ == old(workspace)@,
        old(workspace)@.active matches Some(i) ==> final(workspace)@ == (WorkspaceView {
            documents: old(workspace)@.documents.update(
                i,
                DocumentView { markdown: markdown@, ..old(workspace)@.documents[i] },
            ),
            ..old(workspace)@
        }),
{
    match workspace.active_document_mut() {
        Some(document) => {
            document.update_markdown(markdown);
            true
        },
        None => false,
    }
}

/// Makes the next (or, where `next` is false, the previous) tab active, and gives the status
/// line that follows; `None` where there are fewer than two tabs.
pub fn switch_document(workspace: &mut DocumentWorkspace, next: bool) -> (r: Option<&'static str>)
    requires
        old(workspace)@.wf(),
    ensures
        final(workspace)@.wf(),
        r is Some == (old(workspace)@.documents.len() >= 2),
        r is None ==> final(workspace)@ == old(workspace)@,
        r matches Some(s) ==> (old(workspace)@.active matches Some(a) && final(workspace)@ == (
        WorkspaceView {
            active: Some(
                if next {
                    next_position(a, old(workspace)@.documents.len() as int)
                } else {
                    previous_position(a, old(workspace)@.documents.len() as int)
                },
            ),
            ..old(workspace)@
        }) && s@ == (if next {
            "Switched to next tab."@
        } else {
            "Switched to previous tab."@
        })),
{
    let changed = if next {
        workspace.activate_next_document()
    } else {
        workspace.activate_previous_document()
    };
    if !changed {
        None
    } else if next {
        Some("Switched to next tab.")
    } else {
        Some("Switched to previous tab.")
    }
}

/// Makes the document `document_id` active: the status line that follows, or the error
/// where its tab is gone.
pub fn activate_document(workspace: &mut DocumentWorkspace, document_id: u64) -> (r: Result<
    &'static str,
    &'static str,
>)
    requires
        old(workspace)@.wf(),
    ensures
        final(workspace)@.wf(),
        position_of_id(old(workspace)@.documents, document_id) matches Some(i) ==> (r matches Ok(
            s,
        ) && s@ == "Document switched."@ && final(workspace)@ == (WorkspaceView {
            active: Some(i),
            ..old(workspace)@
        })),
        position_of_id(old(workspace)@.documents, document_id) is None ==> (r matches Err(e) && e@
            == "Document tab no longer exists."@ && final(workspace)@ == old(workspace)@),
{
    if workspace.activate_document(document_id) {
        Ok("Document switched.")
    } else {
        Err("Document tab no longer exists.")
    }
}

/// Where a document whose canonical path is `canonical_path` is open already, makes it active
/// and gives the status line that follows; otherwise changes nothing and gives `None`, and the
/// file is to be loaded.
pub fn switch_to_open_document(workspace: &mut DocumentWorkspace, canonical_path: &str) -> (r:
    Option<&'static str>)
    requires
        old(workspace)@.wf(),
    ensures
        final(workspace)@.wf(),
        position_of_path(old(workspace)@.documents, canonical_path@, None) matches Some(i) ==> (
        r matches Some(s) && s@ == "Document already opened. Switched to tab."@ && position_of_id(
            old(workspace)@.documents,
            old(workspace)@.documents[i].id,
        ) is Some && final(workspace)@ == (WorkspaceView {
            active: position_of_id(old(workspace)@.documents, old(workspace)@.documents[i].id),
            ..old(workspace)@
        })),
        position_of_path(old(workspace)@.documents, canonical_path@, None) is None ==> r is None
            && final(workspace)@ == old(workspace)@,
{
    match workspace.find_by_path(canonical_path) {
        Some(id) => {
            proof {
                let docs = old(workspace)@.documents;
                lemma_first_where_found(docs, Criterion::Path(canonical_path@, None));
                let i = position_of_path(docs, canonical_path@, None)->Some_0;
                lemma_first_where_some(docs, Criterion::Id(id), i);
            }
            workspace.activate_document(id);
            Some("Document already opened. Switched to tab.")
        },
        None => None,
    }
}

/// The next step of settling the unsaved changes of several tabs.
#[derive(Debug, PartialEq, Eq, Structural)]
pub enum SettleStep {
    /// Ask about the document at this position of the list.
    Ask(usize),
    /// Stop; whether every document was settled.
    Finished(bool),
}

/// The next step of settling the unsaved changes of the documents `ids`, one after another in
/// that order, before their tabs close: the positions before `from` are done, and
/// `last_settled` tells whether the last document asked about was settled. It stops at the
/// first that was not, and asks only about open documents that have something to save.
pub fn settle_step(workspace: &DocumentWorkspace, ids: &Vec<u64>, from: usize, last_settled: bool) -> (r:
    SettleStep)
    ensures
        !last_settled ==> r == SettleStep::Finished(false),
        last_settled ==> match r {
            SettleStep::Ask(k) => from <= k < ids.len() && has_pending_changes(
                workspace@,
                ids@[k as int],
            ) && forall|j: int| from <= j < k ==> !has_pending_changes(workspace@, #[trigger] ids@[j]),
            SettleStep::Finished(done) => done && forall|j: int|
                from <= j < ids.len() ==> !has_pending_changes(workspace@, #[trigger] ids@[j]),
        },
{
    if !last_settled {
        return SettleStep::Finished(false);
    }
    match workspace.next_pending_document(ids, from) {
        Some(k) => SettleStep::Ask(k),
        None => SettleStep::Finished(true),
    }
}

/// Takes a freshly loaded `document` into the workspace and lets it load assets from
/// `asset_root`, its resolved directory (or why that could not be resolved). The status line
/// that follows, and whether the workspace is drawn afresh; where the assets cannot be
/// enabled, the document is closed again and the error given.
pub fn open_loaded_document(
    workspace: &mut DocumentWorkspace,
    registry: &mut AssetRegistry,
    document: ActiveDocument,
    asset_root: Result<String, String>,
) -> (r: Result<(&'static str, bool), String>)
    requires
        old(workspace)@.wf(),
    ensures
        final(workspace)@.wf(),
        final(workspace)@.next_id == old(workspace)@.next_id,
        position_of_path(old(workspace)@.documents, document@.canonical_path, None) matches Some(i)
            ==> (r matches Ok(st) && st.0@ == "Document already opened. Switched to tab."@ && !st.1
            && final(workspace)@ == (WorkspaceView { active: Some(i), ..old(workspace)@ })
            && final(registry)@ == old(registry)@),
        position_of_path(old(workspace)@.documents, document@.canonical_path, None) is None ==> (
        match asset_root {
            Ok(root) => r matches Ok(st) && st.0@ == "Document loaded."@ && st.1
                && final(workspace)@.documents == old(workspace)@.documents.push(document@)
                && final(workspace)@.active == Some(old(workspace)@.documents.len() as int)
                && final(registry)@ == old(registry)@.insert(document@.id, root@),
            Err(e) => {
                &&& (r matches Err(m) && m@ == "Failed to enable local assets: "@ + e@)
                &&& final(registry)@ == old(registry)@
                &&& (position_of_id(old(workspace)@.documents.push(document@), document@.id) matches Some(k)
                    && final(workspace)@.documents == old(workspace)@.documents.push(document@).remove(k))
            },
        }),
{
    let id = document.id();
    let ghost view = document@;
    match workspace.open_document(document) {
        WorkspaceOpenResult::ActivatedExisting(_) => Ok(
            ("Document already opened. Switched to tab.", false),
        ),
        WorkspaceOpenResult::OpenedNew(_) => {
            match asset_root {
                Ok(root) => {
                    register_document(registry, id, root);
                    Ok(("Document loaded.", true))
                },
                Err(e) => {
                    proof {
                        let pushed = old(workspace)@.documents.push(view);
                        assert(meets(pushed[pushed.len() - 1], Criterion::Id(id)));
                        lemma_first_where_some(pushed, Criterion::Id(id), pushed.len() - 1);
                    }
                    let _closed = workspace.close_document(id);
                    Err(concat("Failed to enable local assets: ", e.as_str()))
                },
            }
        },
    }
}

// ---------------------------------------------------------------------------
// The status line after an export or a print request

/// How a status line is shown.
#[derive(Clone, Copy, Debug, PartialEq, Eq, Structural)]
pub enum StatusLevel {
    Info,
    Error,
}

/// A status line, with a file that the line offers to open and the label of that offer.
pub struct StatusReport {
    pub message: String,
    pub level: StatusLevel,
    pub action_path: Option<String>,
    pub action_label: Option<&'static str>,
}

/// A status line that offers nothing.
pub open spec fn plain_status(r: StatusReport, message: Seq<char>, level: StatusLevel) -> bool {
    &&& r.message@ == message
    &&& r.level == level
    &&& r.action_path is None
    &&& r.action_label is None
}

fn plain_report(message: String, level: StatusLevel) -> (r: StatusReport)
    ensures
        plain_status(r, message@, level),
{
    StatusReport { message, level, action_path: None, action_label: None }
}

/// The status line after an export of format `format` (`PDF` or `HTML`): `outcome` holds the
/// file written (`None` where the dialog was cancelled) or the error, and is itself `None`
/// where no document was open.
pub fn export_status(format: &str, outcome: Option<Result<Option<String>, String>>) -> (r: StatusReport)
    ensures
        match outcome {
            None => plain_status(r, "No document opened."@, StatusLevel::Error),
            Some(Err(e)) => plain_status(r, e@, StatusLevel::Error),
            Some(Ok(None)) => plain_status(r, "Export cancelled."@, StatusLevel::Info),
            Some(Ok(Some(path))) => {
                &&& r.message@ == "Exported "@ + format@ + ": "@ + path@
                &&& r.level == StatusLevel::Info
                &&& r.action_path matches Some(p) && p@ == path@
                &&& r.action_label matches Some(l) && l@ == "Open"@
            },
        },
{
    match outcome {
        None => plain_report(String::from_str("No document opened."), StatusLevel::Error),
        Some(Err(e)) => plain_report(e, StatusLevel::Error),
        Some(Ok(None)) => plain_report(String::from_str("Export cancelled."), StatusLevel::Info),
        Some(Ok(Some(path))) => {
            let head = concat3("Exported ", format, ": ");
            let message = concat(head.as_str(), path.as_str());
            StatusReport {
                message,
                level: StatusLevel::Info,
                action_path: Some(path),
                action_label: Some("Open"),
            }
        },
    }
}

/// The status line after a print request came to `outcome`; `None` means that no document
/// was open.
pub fn print_status(outcome: Option<Result<PrintOutcome, String>>) -> (r: StatusReport)
    ensures
        match outcome {
            None => plain_status(r, "No document opened."@, StatusLevel::Error),
            Some(Err(e)) => plain_status(r, e@, StatusLevel::Error),
            Some(Ok(PrintOutcome::Started)) => plain_status(r, "Print panel opened."@, StatusLevel::Info),
            Some(Ok(PrintOutcome::Cancelled)) => plain_status(r, "Print cancelled."@, StatusLevel::Info),
        },
{
    match outcome {
        None => plain_report(String::from_str("No document opened."), StatusLevel::Error),
        Some(Err(e)) => plain_report(e, StatusLevel::Error),
        Some(Ok(PrintOutcome::Started)) => plain_report(
            String::from_str("Print panel opened."),
            StatusLevel::Info,
        ),
        Some(Ok(PrintOutcome::Cancelled)) => plain_report(
            String::from_str("Print cancelled."),
            StatusLevel::Info,
        ),
    }
}

} // verus!
