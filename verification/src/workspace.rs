//! The open documents, shown as tabs, one of them active.
use vstd::prelude::*;

use crate::document::{
    ActiveDocument, DocumentSnapshot, DocumentTabSnapshot, DocumentView, describes, tab_describes,
};
use crate::paths::{same_path, std_same_path};
use crate::text::{line_count, word_count};

verus! {

/// The abstract state of the workspace.
pub ghost struct WorkspaceView {
    /// The open documents, in tab order.
    pub documents: Seq<DocumentView>,
    /// The position of the active document.
    pub active: Option<int>,
    /// The number the next new document receives.
    pub next_id: u64,
}

/// What a search among the documents looks for.
pub ghost enum Criterion {
    /// The document with this number.
    Id(u64),
    /// A document whose canonical path is this one, other than the document with the given
    /// number.
    Path(Seq<char>, Option<u64>),
}

/// Whether the document `d` is what `c` looks for.
pub open spec fn meets(d: DocumentView, c: Criterion) -> bool {
    match c {
        Criterion::Id(id) => d.id == id,
        Criterion::Path(path, excluded) => std_same_path(d.canonical_path, path) && excluded != Some(
            d.id,
        ),
    }
}

/// The first position in `docs` whose document is what `c` looks for.
pub open spec fn first_where(docs: Seq<DocumentView>, c: Criterion) -> Option<int> {
    if exists|i: int| 0 <= i < docs.len() && meets(docs[i], c) {
        Some(
            choose|i: int|
                0 <= i < docs.len() && meets(docs[i], c) && forall|j: int|
                    0 <= j < i ==> !meets(docs[j], c),
        )
    } else {
        None
    }
}

/// The first position of the document with number `id`.
pub open spec fn position_of_id(docs: Seq<DocumentView>, id: u64) -> Option<int> {
    first_where(docs, Criterion::Id(id))
}

/// The first position of a document whose canonical path is `path`, skipping the document
/// with number `excluded`, if given.
pub open spec fn position_of_path(
    docs: Seq<DocumentView>,
    path: Seq<char>,
    excluded: Option<u64>,
) -> Option<int> {
    first_where(docs, Criterion::Path(path, excluded))
}

/// The numbers of the documents, in tab order.
pub open spec fn ids_of(docs: Seq<DocumentView>) -> Seq<u64> {
    docs.map_values(|d: DocumentView| d.id)
}

/// The numbers of the documents other than `id`, in tab order.
pub open spec fn ids_except(docs: Seq<DocumentView>, id: u64) -> Seq<u64>
    decreases docs.len(),
{
    if docs.len() == 0 {
        Seq::empty()
    } else {
        let rest = ids_except(docs.drop_last(), id);
        if docs.last().id == id {
            rest
        } else {
            rest.push(docs.last().id)
        }
    }
}

/// The active position after the tab at `removed` is closed, leaving `len` tabs: the same
/// document stays active; when the active tab itself closes, its right neighbour becomes
/// active, or the new last tab.
pub open spec fn active_after_close(active: Option<int>, removed: int, len: int) -> Option<int> {
    if len == 0 {
        None
    } else {
        match active {
            Some(a) => if a == removed {
                Some(if removed < len { removed } else { len - 1 })
            } else if a > removed {
                Some(a - 1)
            } else {
                Some(a)
            },
            None => None,
        }
    }
}

/// The position after `i` among `n` tabs, wrapping around.
pub open spec fn next_position(i: int, n: int) -> int {
    (i + 1) % n
}

/// The position before `i` among `n` tabs, wrapping around.
pub open spec fn previous_position(i: int, n: int) -> int {
    (i + n - 1) % n
}

/// Whether the document with number `id` is open in `w` and has something to save.
pub open spec fn has_pending_changes(w: WorkspaceView, id: u64) -> bool {
    match position_of_id(w.documents, id) {
        Some(i) => w.documents[i].needs_save(),
        None => false,
    }
}

impl WorkspaceView {
    /// The active position, if any, is that of an open document, and there is one whenever a
    /// document is open.
    pub open spec fn wf(self) -> bool {
        &&& (self.active is None <==> self.documents.len() == 0)
        &&& (self.active matches Some(i) ==> 0 <= i < self.documents.len())
    }

    /// The active document.
    pub open spec fn active_document(self) -> Option<DocumentView> {
        match self.active {
            Some(i) => Some(self.documents[i]),
            None => None,
        }
    }
}

/// The outcome of opening a document.
#[derive(Clone, Copy, Debug, PartialEq, Eq, Structural)]
pub enum WorkspaceOpenResult {
    /// A document with the same canonical path was open already and is now active.
    ActivatedExisting(u64),
    /// The document was added as the last tab and is now active.
    OpenedNew(u64),
}

/// The open documents.
pub struct DocumentWorkspace {
    documents: Vec<ActiveDocument>,
    active_index: Option<usize>,
    next_document_id: u64,
}

impl View for DocumentWorkspace {
    type V = WorkspaceView;

    closed spec fn view(&self) -> WorkspaceView {
        WorkspaceView {
            documents: self.documents@.map_values(|d: ActiveDocument| d@),
            active: match self.active_index {
                Some(i) => Some(i as int),
                None => None,
            },
            next_id: self.next_document_id,
        }
    }
}

proof fn lemma_first_where(docs: Seq<DocumentView>, c: Criterion, i: int)
    requires
        0 <= i < docs.len(),
        meets(docs[i], c),
        forall|j: int| 0 <= j < i ==> !meets(#[trigger] docs[j], c),
    ensures
        first_where(docs, c) == Some(i),
{
    let k = choose|k: int|
        0 <= k < docs.len() && meets(docs[k], c) && forall|j: int| 0 <= j < k ==> !meets(docs[j], c);
    assert(0 <= k < docs.len() && meets(docs[k], c) && forall|j: int| 0 <= j < k ==> !meets(docs[j], c));
    if k < i {
        assert(!meets(docs[k], c));
    }
    if k > i {
        assert(!meets(docs[i], c));
    }
}

/// A position found is that of a document that is what `c` looks for.
pub proof fn lemma_first_where_found(docs: Seq<DocumentView>, c: Criterion)
    ensures
        first_where(docs, c) matches Some(i) ==> 0 <= i < docs.len() && meets(docs[i], c),
{
    if exists|i: int| 0 <= i < docs.len() && meets(docs[i], c) {
        let i = choose|i: int| 0 <= i < docs.len() && meets(docs[i], c);
        lemma_first_where_some(docs, c, i);
    }
}

/// Where some document is what `c` looks for, a first one is found.
pub proof fn lemma_first_where_some(docs: Seq<DocumentView>, c: Criterion, i: int)
    requires
        0 <= i < docs.len(),
        meets(docs[i], c),
    ensures
        first_where(docs, c) matches Some(k) && 0 <= k < docs.len() && meets(docs[k], c),
    decreases i,
{
    if exists|j: int| 0 <= j < i && meets(docs[j], c) {
        let j = choose|j: int| 0 <= j < i && meets(docs[j], c);
        lemma_first_where_some(docs, c, j);
    } else {
        lemma_first_where(docs, c, i);
    }
}

proof fn lemma_first_where_none(docs: Seq<DocumentView>, c: Criterion)
    requires
        forall|j: int| 0 <= j < docs.len() ==> !meets(#[trigger] docs[j], c),
    ensures
        first_where(docs, c) is None,
{
}

impl DocumentWorkspace {
    proof fn lemma_view_index(&self)
        ensures
            self@.documents.len() == self.documents@.len(),
            forall|j: int| 0 <= j < self.documents@.len() ==> #[trigger] self@.documents[j] == self.documents@[j]@,
    {
    }

    /// A workspace with no document open; the first new document gets number 1.
    pub fn new() -> (r: Self)
        ensures
            r@ == (WorkspaceView { documents: Seq::empty(), active: None, next_id: 1 }),
            r@.wf(),
    {
        let r = DocumentWorkspace { documents: Vec::new(), active_index: None, next_document_id: 1 };
        assert(r@.documents =~= Seq::<DocumentView>::empty());
        r
    }

    /// Hands out the number for a new document.
    pub fn next_document_id(&mut self) -> (r: u64)
        requires
            old(self)@.next_id < u64::MAX,
        ensures
            r == old(self)@.next_id,
            final(self)@ == (WorkspaceView { next_id: (old(self)@.next_id + 1) as u64, ..old(self)@ }),
    {
        let id = self.next_document_id;
        self.next_document_id = id + 1;
        id
    }

    /// Whether a number for a new document can still be handed out.
    pub fn can_issue_document_id(&self) -> (r: bool)
        ensures
            r == (self@.next_id < u64::MAX),
    {
        self.next_document_id < u64::MAX
    }

    /// The document at position `i`.
    pub fn document_at(&self, i: usize) -> (r: &ActiveDocument)
        requires
            i < self@.documents.len(),
        ensures
            r@ == self@.documents[i as int],
    {
        proof {
            self.lemma_view_index();
        }
        &self.documents[i]
    }

    /// The number of open documents.
    pub fn document_count(&self) -> (r: usize)
        ensures
            r == self@.documents.len(),
    {
        self.documents.len()
    }

    /// The active document.
    pub fn active_document(&self) -> (r: Option<&ActiveDocument>)
        requires
            self@.wf(),
        ensures
            r matches Some(d) ==> self@.active_document() == Some(d@),
            r is None ==> self@.active_document() is None,
    {
        match self.active_index {
            Some(i) => Some(&self.documents[i]),
            None => None,
        }
    }

    /// The active document, for changing it.
    pub fn active_document_mut(&mut self) -> (r: Option<&mut ActiveDocument>)
        requires
            old(self)@.wf(),
        ensures
            old(self)@.active is None ==> r is None && final(self)@ == old(self)@,
            old(self)@.active matches Some(i) ==> (r matches Some(d) && d@ == old(self)@.documents[i]
                && final(self)@.documents == old(self)@.documents.update(i, final(d)@)
                && final(self)@.active == old(self)@.active
                && final(self)@.next_id == old(self)@.next_id),
            final(self)@.wf(),
    {
        match self.active_index {
            Some(i) => Some(&mut self.documents[i]),
            None => None,
        }
    }

    fn position_of(&self, document_id: u64) -> (r: Option<usize>)
        ensures
            r matches Some(i) ==> position_of_id(self@.documents, document_id) == Some(i as int)
                && i < self@.documents.len(),
            r is None ==> position_of_id(self@.documents, document_id) is None,
    {
        let ghost c = Criterion::Id(document_id);
        let mut i: usize = 0;
        while i < self.documents.len()
            invariant
                i <= self.documents.len(),
                c == Criterion::Id(document_id),
                forall|j: int| 0 <= j < i ==> !meets(#[trigger] self.documents@[j]@, c),
            decreases self.documents.len() - i,
        {
            if self.documents[i].id() == document_id {
                proof {
                    self.lemma_view_index();
                    lemma_first_where(self@.documents, c, i as int);
                }
                return Some(i);
            }
            i += 1;
        }
        proof {
            self.lemma_view_index();
            lemma_first_where_none(self@.documents, c);
        }
        None
    }

    /// The first document with number `document_id`, for changing it.
    pub fn document_by_id_mut(&mut self, document_id: u64) -> (r: Option<&mut ActiveDocument>)
        requires
            old(self)@.wf(),
        ensures
            position_of_id(old(self)@.documents, document_id) is None ==> r is None && final(self)@
                == old(self)@,
            position_of_id(old(self)@.documents, document_id) matches Some(i) ==> (r matches Some(d)
                && d@ == old(self)@.documents[i] && final(self)@.documents == old(
                self,
            )@.documents.update(i, final(d)@) && final(self)@.active == old(self)@.active
                && final(self)@.next_id == old(self)@.next_id),
            final(self)@.wf(),
    {
        match self.position_of(document_id) {
            Some(i) => Some(&mut self.documents[i]),
            None => None,
        }
    }

    fn position_of_path(&self, path: &str, excluded: Option<u64>) -> (r: Option<usize>)
        ensures
            r matches Some(i) ==> position_of_path(self@.documents, path@, excluded) == Some(i as int)
                && i < self@.documents.len(),
            r is None ==> position_of_path(self@.documents, path@, excluded) is None,
    {
        let ghost c = Criterion::Path(path@, excluded);
        let mut i: usize = 0;
        while i < self.documents.len()
            invariant
                i <= self.documents.len(),
                c == Criterion::Path(path@, excluded),
                forall|j: int| 0 <= j < i ==> !meets(#[trigger] self.documents@[j]@, c),
            decreases self.documents.len() - i,
        {
            let d = &self.documents[i];
            let not_excluded = match excluded {
                Some(x) => d.id() != x,
                None => true,
            };
            if same_path(d.canonical_path(), path) && not_excluded {
                proof {
                    self.lemma_view_index();
                    lemma_first_where(self@.documents, c, i as int);
                }
                return Some(i);
            }
            i += 1;
        }
        proof {
            self.lemma_view_index();
            lemma_first_where_none(self@.documents, c);
        }
        None
    }

    /// The number of the active document.
    pub fn active_document_id(&self) -> (r: Option<u64>)
        requires
            self@.wf(),
        ensures
            r matches Some(id) ==> (self@.active_document() matches Some(d) && d.id == id),
            r is None ==> self@.active_document() is None,
    {
        match self.active_document() {
            Some(d) => Some(d.id()),
            None => None,
        }
    }

    /// The first position from `from` in `ids` whose document is open and has changes that
    /// must be settled before its tab closes, or `None` where no such position is left: the next
    /// step of settling the changes of several tabs, one after another in the order of `ids`.
    pub fn next_pending_document(&self, ids: &Vec<u64>, from: usize) -> (r: Option<usize>)
        ensures
            r matches Some(k) ==> from <= k < ids.len() && has_pending_changes(
                self@,
                ids@[k as int],
            ) && forall|j: int| from <= j < k ==> !has_pending_changes(self@, #[trigger] ids@[j]),
            r is None ==> forall|j: int|
                from <= j < ids.len() ==> !has_pending_changes(self@, #[trigger] ids@[j]),
    {
        let mut k: usize = from;
        while k < ids.len()
            invariant
                from <= k,
                forall|j: int| from <= j < k && j < ids.len() ==> !has_pending_changes(self@, #[trigger] ids@[j]),
            decreases ids.len() - k,
        {
            let pending = match self.position_of(ids[k]) {
                Some(i) => {
                    proof {
                        self.lemma_view_index();
                    }
                    self.documents[i].is_dirty()
                },
                None => false,
            };
            if pending {
                return Some(k);
            }
            k += 1;
        }
        None
    }

    /// The numbers of the open documents, in tab order.
    pub fn document_ids(&self) -> (r: Vec<u64>)
        ensures
            r@ == ids_of(self@.documents),
    {
        let mut r: Vec<u64> = Vec::new();
        let mut i: usize = 0;
        proof {
            self.lemma_view_index();
        }
        while i < self.documents.len()
            invariant
                i <= self.documents.len(),
                self@.documents.len() == self.documents@.len(),
                forall|j: int| 0 <= j < self.documents@.len() ==> #[trigger] self@.documents[j] == self.documents@[j]@,
                r@ == ids_of(self@.documents.take(i as int)),
            decreases self.documents.len() - i,
        {
            r.push(self.documents[i].id());
            assert(ids_of(self@.documents.take(i + 1)) =~= ids_of(self@.documents.take(i as int)).push(
                self@.documents[i as int].id,
            ));
            i += 1;
        }
        assert(self@.documents.take(i as int) =~= self@.documents);
        r
    }

    /// The numbers of the open documents other than `active_document_id`, in tab order.
    pub fn other_document_ids(&self, active_document_id: u64) -> (r: Vec<u64>)
        ensures
            r@ == ids_except(self@.documents, active_document_id),
    {
        let mut r: Vec<u64> = Vec::new();
        let mut i: usize = 0;
        proof {
            self.lemma_view_index();
        }
        while i < self.documents.len()
            invariant
                i <= self.documents.len(),
                self@.documents.len() == self.documents@.len(),
                forall|j: int| 0 <= j < self.documents@.len() ==> #[trigger] self@.documents[j] == self.documents@[j]@,
                r@ == ids_except(self@.documents.take(i as int), active_document_id),
            decreases self.documents.len() - i,
        {
            let id = self.documents[i].id();
            assert(self@.documents.take(i + 1).drop_last() =~= self@.documents.take(i as int));
            if id != active_document_id {
                r.push(id);
            }
            i += 1;
        }
        assert(self@.documents.take(i as int) =~= self@.documents);
        r
    }

    /// What the tabs show: each document, and whether it is the active one.
    pub fn tab_snapshots(&self) -> (r: Vec<DocumentTabSnapshot>)
        ensures
            r@.len() == self@.documents.len(),
            forall|i: int|
                0 <= i < r@.len() ==> tab_describes(
                    #[trigger] r@[i],
                    self@.documents[i],
                    self@.active == Some(i),
                ),
    {
        let mut r: Vec<DocumentTabSnapshot> = Vec::new();
        let mut i: usize = 0;
        proof {
            self.lemma_view_index();
        }
        while i < self.documents.len()
            invariant
                i <= self.documents.len(),
                r@.len() == i,
                self@.documents.len() == self.documents@.len(),
                forall|j: int| 0 <= j < self.documents@.len() ==> #[trigger] self@.documents[j] == self.documents@[j]@,
                forall|j: int|
                    0 <= j < i ==> tab_describes(
                        #[trigger] r@[j],
                        self@.documents[j],
                        self@.active == Some(j),
                    ),
            decreases self.documents.len() - i,
        {
            let active = match self.active_index {
                Some(a) => a == i,
                None => false,
            };
            r.push(self.documents[i].tab_snapshot(active));
            i += 1;
        }
        r
    }

    /// What the interface shows of the active document.
    pub fn active_document_snapshot(&self) -> (r: Option<DocumentSnapshot>)
        requires
            self@.wf(),
        ensures
            r matches Some(s) ==> (self@.active_document() matches Some(d) && describes(s, d)),
            r is None ==> self@.active_document() is None,
    {
        match self.active_document() {
            Some(d) => Some(d.snapshot()),
            None => None,
        }
    }

    /// The window title for the active document.
    pub fn active_window_title(&self) -> (r: Option<String>)
        requires
            self@.wf(),
        ensures
            r matches Some(t) ==> (self@.active_document() matches Some(d) && t@ == d.window_title()),
            r is None ==> self@.active_document() is None,
    {
        match self.active_document() {
            Some(d) => Some(d.window_title()),
            None => None,
        }
    }

    /// Opens `document`, unless a document with the same canonical path is open: then that one
    /// becomes active instead.
    pub fn open_document(&mut self, document: ActiveDocument) -> (r: WorkspaceOpenResult)
        requires
            old(self)@.wf(),
        ensures
            final(self)@.wf(),
            final(self)@.next_id == old(self)@.next_id,
            position_of_path(old(self)@.documents, document@.canonical_path, None) matches Some(i)
                ==> r == WorkspaceOpenResult::ActivatedExisting(old(self)@.documents[i].id)
                && final(self)@.documents == old(self)@.documents && final(self)@.active == Some(i),
            position_of_path(old(self)@.documents, document@.canonical_path, None) is None ==> r
                == WorkspaceOpenResult::OpenedNew(document@.id) && final(self)@.documents == old(
                self,
            )@.documents.push(document@) && final(self)@.active == Some(
                old(self)@.documents.len() as int,
            ),
    {
        proof {
            self.lemma_view_index();
        }
        match self.position_of_path(document.canonical_path(), None) {
            Some(i) => {
                self.active_index = Some(i);
                WorkspaceOpenResult::ActivatedExisting(self.documents[i].id())
            },
            None => {
                let id = document.id();
                self.documents.push(document);
                self.active_index = Some(self.documents.len() - 1);
                assert(self@.documents =~= old(self)@.documents.push(document@));
                WorkspaceOpenResult::OpenedNew(id)
            },
        }
    }

    /// Makes the document with number `document_id` active; `false` where there is none.
    pub fn activate_document(&mut self, document_id: u64) -> (r: bool)
        requires
            old(self)@.wf(),
        ensures
            final(self)@.wf(),
            r == position_of_id(old(self)@.documents, document_id) is Some,
            position_of_id(old(self)@.documents, document_id) matches Some(i) ==> final(self)@
                == (WorkspaceView { active: Some(i), ..old(self)@ }),
            position_of_id(old(self)@.documents, document_id) is None ==> final(self)@ == old(self)@,
    {
        match self.position_of(document_id) {
            Some(i) => {
                self.active_index = Some(i);
                true
            },
            None => false,
        }
    }

    /// Makes the next tab active, after the last the first; `false` with fewer than two tabs.
    pub fn activate_next_document(&mut self) -> (r: bool)
        requires
            old(self)@.wf(),
        ensures
            final(self)@.wf(),
            r == (old(self)@.documents.len() >= 2),
            r ==> (old(self)@.active matches Some(a) && final(self)@ == (WorkspaceView {
                active: Some(next_position(a, old(self)@.documents.len() as int)),
                ..old(self)@
            })),
            !r ==> final(self)@ == old(self)@,
    {
        let active = match self.active_index {
            Some(a) => a,
            None => {
                return false;
            },
        };
        let n = self.documents.len();
        if n < 2 {
            return false;
        }
        self.active_index = Some((active + 1) % n);
        true
    }

    /// Makes the previous tab active, before the first the last; `false` with fewer than two tabs.
    pub fn activate_previous_document(&mut self) -> (r: bool)
        requires
            old(self)@.wf(),
        ensures
            final(self)@.wf(),
            r == (old(self)@.documents.len() >= 2),
            r ==> (old(self)@.active matches Some(a) && final(self)@ == (WorkspaceView {
                active: Some(previous_position(a, old(self)@.documents.len() as int)),
                ..old(self)@
            })),
            !r ==> final(self)@ == old(self)@,
    {
        let active = match self.active_index {
            Some(a) => a,
            None => {
                return false;
            },
        };
        let n = self.documents.len();
        if n < 2 {
            return false;
        }
        let previous = if active == 0 {
            n - 1
        } else {
            active - 1
        };
        assert(previous as int == previous_position(active as int, n as int)) by (nonlinear_arith)
            requires
                active < n,
                previous == (if active == 0 {
                    n - 1
                } else {
                    active - 1
                }),
        ;
        self.active_index = Some(previous);
        true
    }

    /// Closes the document with number `document_id` and hands it back; `None` where there is
    /// none.
    pub fn close_document(&mut self, document_id: u64) -> (r: Option<ActiveDocument>)
        requires
            old(self)@.wf(),
        ensures
            final(self)@.wf(),
            final(self)@.next_id == old(self)@.next_id,
            position_of_id(old(self)@.documents, document_id) is None ==> r is None && final(self)@
                == old(self)@,
            position_of_id(old(self)@.documents, document_id) matches Some(i) ==> (r matches Some(d)
                && d@ == old(self)@.documents[i] && final(self)@.documents == old(
                self,
            )@.documents.remove(i) && final(self)@.active == active_after_close(
                old(self)@.active,
                i,
                old(self)@.documents.len() - 1,
            )),
    {
        proof {
            self.lemma_view_index();
        }
        let index = match self.position_of(document_id) {
            Some(i) => i,
            None => {
                return None;
            },
        };
        let removed = self.documents.remove(index);
        let len = self.documents.len();
        self.active_index = if len == 0 {
            None
        } else {
            match self.active_index {
                Some(active) => if active == index {
                    Some(if index < len { index } else { len - 1 })
                } else if active > index {
                    Some(active - 1)
                } else {
                    Some(active)
                },
                None => None,
            }
        };
        assert(self@.documents =~= old(self)@.documents.remove(index as int));
        Some(removed)
    }

    /// The number of the first document whose canonical path is `canonical_path`.
    pub fn find_by_path(&self, canonical_path: &str) -> (r: Option<u64>)
        ensures
            position_of_path(self@.documents, canonical_path@, None) matches Some(i) ==> r == Some(
                self@.documents[i].id,
            ),
            position_of_path(self@.documents, canonical_path@, None) is None ==> r is None,
    {
        proof {
            self.lemma_view_index();
        }
        match self.position_of_path(canonical_path, None) {
            Some(i) => Some(self.documents[i].id()),
            None => None,
        }
    }

    /// The number of the first document other than `excluded_document_id` whose canonical
    /// path is `canonical_path`.
    pub fn find_by_path_excluding(&self, canonical_path: &str, excluded_document_id: u64) -> (r:
        Option<u64>)
        ensures
            position_of_path(self@.documents, canonical_path@, Some(excluded_document_id)) matches Some(i)
                ==> r == Some(self@.documents[i].id),
            position_of_path(self@.documents, canonical_path@, Some(excluded_document_id)) is None
                ==> r is None,
    {
        proof {
            self.lemma_view_index();
        }
        match self.position_of_path(canonical_path, Some(excluded_document_id)) {
            Some(i) => Some(self.documents[i].id()),
            None => None,
        }
    }

}

/// Switching to the next tab and then to the previous one (or the other way round) comes back
/// to the tab one started from.
pub proof fn law_next_previous_inverse(i: int, n: int)
    requires
        2 <= n,
        0 <= i < n,
    ensures
        previous_position(next_position(i, n), n) == i,
        next_position(previous_position(i, n), n) == i,
{
    assert(previous_position(next_position(i, n), n) == i) by (nonlinear_arith)
        requires
            2 <= n,
            0 <= i < n,
    {
        if i + 1 < n {
            assert((i + 1) % n == i + 1);
            assert((i + 1 + n - 1) % n == (i + n) % n);
            assert((i + n) % n == i);
        } else {
            assert((i + 1) % n == 0);
            assert((0 + n - 1) % n == n - 1);
        }
    }
    assert(next_position(previous_position(i, n), n) == i) by (nonlinear_arith)
        requires
            2 <= n,
            0 <= i < n,
    {
        if i == 0 {
            assert((i + n - 1) % n == n - 1);
            assert((n - 1 + 1) % n == 0);
        } else {
            assert((i + n - 1) % n == i - 1);
            assert((i - 1 + 1) % n == i);
        }
    }
}

/// Closing a tab other than the active one leaves the same document active.
pub proof fn law_closing_other_tab_keeps_active(docs: Seq<DocumentView>, a: int, i: int)
    requires
        0 <= a < docs.len(),
        0 <= i < docs.len(),
        a != i,
    ensures
        active_after_close(Some(a), i, docs.len() - 1) matches Some(b) && docs.remove(i)[b] == docs[a],
{
}

/// Closing the active tab makes its right neighbour active, or the new last tab where it was
/// the last one; closing the only tab leaves none active.
pub proof fn law_closing_active_tab(docs: Seq<DocumentView>, i: int)
    requires
        0 <= i < docs.len(),
    ensures
        docs.len() == 1 ==> active_after_close(Some(i), i, docs.len() - 1) is None,
        i + 1 < docs.len() ==> (active_after_close(Some(i), i, docs.len() - 1) matches Some(b)
            && docs.remove(i)[b] == docs[i + 1]),
        docs.len() > 1 && i + 1 == docs.len() ==> (active_after_close(Some(i), i, docs.len() - 1)
            matches Some(b) && docs.remove(i)[b] == docs[i - 1]),
{
}

proof fn lemma_first_where_at_most(docs: Seq<DocumentView>, c: Criterion, i: int)
    requires
        0 <= i < docs.len(),
        meets(docs[i], c),
    ensures
        first_where(docs, c) matches Some(k) && k <= i,
    decreases i,
{
    if exists|j: int| 0 <= j < i && meets(docs[j], c) {
        let j = choose|j: int| 0 <= j < i && meets(docs[j], c);
        lemma_first_where_at_most(docs, c, j);
    } else {
        lemma_first_where(docs, c, i);
    }
}

/// A document is looked up by its canonical path, whatever path it was opened by: where a
/// document whose canonical path is the same path as `path` (and that is not `excluded`) is
/// open at position `i`, the search finds such a document, at `i` or before it.
pub proof fn law_found_by_canonical_path(
    docs: Seq<DocumentView>,
    path: Seq<char>,
    excluded: Option<u64>,
    i: int,
)
    requires
        0 <= i < docs.len(),
        std_same_path(docs[i].canonical_path, path),
        excluded != Some(docs[i].id),
    ensures
        position_of_path(docs, path, excluded) matches Some(k) && 0 <= k <= i && std_same_path(
            docs[k].canonical_path,
            path,
        ) && excluded != Some(docs[k].id),
{
    let c = Criterion::Path(path, excluded);
    lemma_first_where_at_most(docs, c, i);
    lemma_first_where_found(docs, c);
}

/// Only a document whose canonical path is the same path as `path`, and that is not
/// `excluded`, is ever found by it; where none is open, nothing is found.
pub proof fn law_found_only_by_canonical_path(
    docs: Seq<DocumentView>,
    path: Seq<char>,
    excluded: Option<u64>,
)
    ensures
        position_of_path(docs, path, excluded) matches Some(k) ==> 0 <= k < docs.len()
            && std_same_path(docs[k].canonical_path, path) && excluded != Some(docs[k].id),
        (forall|j: int|
            0 <= j < docs.len() ==> !(std_same_path(#[trigger] docs[j].canonical_path, path)
                && excluded != Some(docs[j].id))) ==> position_of_path(docs, path, excluded) is None,
{
    lemma_first_where_found(docs, Criterion::Path(path, excluded));
}

/// Opening a document whose file is open already (the same canonical path, whatever path
/// either was opened by) adds no tab: the workspace's lookup finds the open one, which
/// `open_document` then activates.
pub proof fn law_reopening_a_file_adds_no_tab(w: WorkspaceView, n: DocumentView, i: int)
    requires
        0 <= i < w.documents.len(),
        std_same_path(w.documents[i].canonical_path, n.canonical_path),
    ensures
        position_of_path(w.documents, n.canonical_path, None) is Some,
{
    law_found_by_canonical_path(w.documents, n.canonical_path, None, i);
}

} // verus!
