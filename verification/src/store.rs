//! The document store: which documents have been visited this session, and
//! the name a document is persisted under.
//!
//! The store records the identifiers of the documents selected so far, in
//! first-selection order and without duplicates. The editor instance that
//! holds each document's text lives with the event loop, in a table kept
//! parallel to this one: entry `i` there belongs to identifier `i` here.
//! Because entries are only ever appended, an index handed out once names
//! the same document for the rest of the session.

use vstd::prelude::*;
use vstd::string::StringExecFns;

verus! {

/// The table after an identifier is selected: unchanged when it is already
/// present, extended by it at the end when it is not.
pub open spec fn store_after(t: Seq<Seq<char>>, id: Seq<char>) -> Seq<Seq<char>> {
    if t.contains(id) {
        t
    } else {
        t.push(id)
    }
}

/// The identifiers of the documents selected at least once this session,
/// in first-selection order.
pub struct DocumentStore {
    ids: Vec<String>,
}

impl DocumentStore {
    /// The table as a sequence of document identifiers.
    pub closed spec fn view(&self) -> Seq<Seq<char>> {
        self.ids@.map_values(|s: String| s@)
    }

    /// No identifier appears twice: an entry exists for a document exactly
    /// once, however often it is re-selected.
    pub open spec fn wf(&self) -> bool {
        forall|i: int, j: int| 0 <= i < j < self@.len() ==> self@[i] != self@[j]
    }

    pub fn new() -> (s: DocumentStore)
        ensures
            s@ == Seq::<Seq<char>>::empty(),
            s.wf(),
    {
        DocumentStore { ids: Vec::new() }
    }

    /// The number of documents visited so far.
    pub fn len(&self) -> (n: usize)
        ensures
            n == self@.len(),
    {
        self.ids.len()
    }

    /// Return the entry for `id`, creating one only if none exists yet:
    /// the index of `id` in the table, and whether it was inserted now.
    /// Existing entries keep their indices.
    pub fn get_or_create(&mut self, id: &String) -> (r: (usize, bool))
        requires
            old(self).wf(),
        ensures
            final(self).wf(),
            final(self)@ == store_after(old(self)@, id@),
            r.1 == !old(self)@.contains(id@),
            r.0 < final(self)@.len(),
            final(self)@[r.0 as int] == id@,
            !old(self)@.contains(id@) ==> r.0 == old(self)@.len(),
    {
        let n = self.ids.len();
        let mut i: usize = 0;
        while i < n
            invariant
                n == self.ids.len(),
                i <= n,
                self@ == old(self)@,
                self.wf(),
                forall|j: int| 0 <= j < i ==> self@[j] != id@,
            decreases n - i,
        {
            assert(self@[i as int] == self.ids@[i as int]@);
            if self.ids[i].eq(id) {
                assert(self@.contains(id@)) by {
                    assert(self@[i as int] == id@);
                }
                return (i, false);
            }
            i += 1;
        }
        assert(!self@.contains(id@));
        let ghost before = self@;
        self.ids.push(id.clone());
        assert(self@ =~= before.push(id@));
        (n, true)
    }

    /// The identifier stored at `index`.
    pub fn id_at(&self, index: usize) -> (r: &String)
        requires
            index < self@.len(),
        ensures
            r@ == self@[index as int],
    {
        &self.ids[index]
    }
}

/// Selecting a document makes the table contain it, and the table never
/// loses an identifier afterwards.
pub proof fn lemma_selected_stays_in_store(t: Seq<Seq<char>>, a: Seq<char>, b: Seq<char>)
    ensures
        store_after(t, a).contains(a),
        store_after(store_after(t, a), b).contains(a),
{
    if !t.contains(a) {
        assert(t.push(a)[t.len() as int] == a);
        assert(t.push(a).contains(a));
    }
    let t1 = store_after(t, a);
    if !t1.contains(b) {
        let i = choose|i: int| 0 <= i < t1.len() && t1[i] == a;
        assert(t1.push(b)[i] == a);
        assert(t1.push(b).contains(a));
    }
}

/// Re-selecting a document leaves the table exactly as it was: the entry
/// made at its first selection is reused, never replaced, however many
/// other documents were selected in between. The editor state attached to
/// that entry — the document's text and history — therefore survives
/// switching away and back.
pub proof fn lemma_reselect_reuses_entry(t: Seq<Seq<char>>, a: Seq<char>, b: Seq<char>)
    ensures
        store_after(store_after(store_after(t, a), b), a) == store_after(store_after(t, a), b),
{
    lemma_selected_stays_in_store(t, a, b);
}

/// The file a document is persisted to: its identifier followed by the
/// markdown extension, in the working directory.
pub fn save_file_name(id: &String) -> (r: String)
    ensures
        r@ == id@ + ".md"@,
{
    let mut r = id.clone();
    r.append(".md");
    r
}

} // verus!
