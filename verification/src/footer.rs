//! The texts of the status footer under the page: the path, the counts and the mode of the
//! active document, and the status line.
use vstd::prelude::*;

use crate::document::{mode_label, DocumentView};
use crate::text::{concat, decimal, line_count, u64_to_string, word_count};
use crate::workspace::DocumentWorkspace;

verus! {

/// What the footer shows; the counts and the mode only while a document is open.
pub struct FooterTexts {
    pub path: String,
    pub words: String,
    pub lines: String,
    pub mode: String,
    pub status: String,
    pub show_details: bool,
}

/// The footer shows the document `d`.
pub open spec fn shows_document(r: FooterTexts, d: DocumentView) -> bool {
    &&& r.path@ == "Path: "@ + d.display_path()
    &&& r.words@ == "Words "@ + decimal(word_count(d.markdown))
    &&& r.lines@ == "Lines "@ + decimal(line_count(d.markdown))
    &&& r.mode@ == "Mode "@ + mode_label(d.mode)
    &&& r.show_details
}

/// The footer while no document is open.
pub open spec fn shows_nothing(r: FooterTexts) -> bool {
    &&& r.path@ == "Path: No file opened"@
    &&& r.words@.len() == 0
    &&& r.lines@.len() == 0
    &&& r.mode@.len() == 0
    &&& !r.show_details
}

/// What the footer shows of `workspace`, with `status` as the status line.
pub fn footer_texts(workspace: &DocumentWorkspace, status: &str) -> (r: FooterTexts)
    requires
        workspace@.wf(),
    ensures
        r.status@ == "Status "@ + status@,
        workspace@.active_document() matches Some(d) ==> shows_document(r, d),
        workspace@.active_document() is None ==> shows_nothing(r),
{
    let status_text = concat("Status ", status);
    match workspace.active_document_snapshot() {
        Some(active) => {
            let words = u64_to_string(active.word_count as u64);
            let lines = u64_to_string(active.line_count as u64);
            FooterTexts {
                path: concat("Path: ", active.file_path.as_str()),
                words: concat("Words ", words.as_str()),
                lines: concat("Lines ", lines.as_str()),
                mode: concat("Mode ", active.mode_label),
                status: status_text,
                show_details: true,
            }
        },
        None => FooterTexts {
            path: String::from_str("Path: No file opened"),
            words: String::new(),
            lines: String::new(),
            mode: String::new(),
            status: status_text,
            show_details: false,
        },
    }
}

} // verus!
