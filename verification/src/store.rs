//! The in-memory note store: the authoritative set of notes, with add, remove
//! and search.

use crate::note::{views_of, Note, NoteView};
use crate::text::{contains, contains_text, decimal, decimal_string, lemma_decimal_injective};
use vstd::prelude::*;
use vstd::string::*;

verus! {

/// The identifier of the `k`-th note that a store creates: `n` and the numeral
/// of `k`.
pub open spec fn note_id(k: nat) -> Seq<char> {
    seq!['n'] + decimal(k)
}

/// `id` is one of the first `issued` identifiers.
pub open spec fn is_issued(id: Seq<char>, issued: nat) -> bool {
    exists|k: nat| 1 <= k <= issued && id == #[trigger] note_id(k)
}

/// Different numbers give different identifiers.
pub proof fn lemma_note_id_injective(a: nat, b: nat)
    requires
        note_id(a) == note_id(b),
    ensures
        a == b,
{
    assert(note_id(a).subrange(1, note_id(a).len() as int) =~= decimal(a));
    assert(note_id(b).subrange(1, note_id(b).len() as int) =~= decimal(b));
    lemma_decimal_injective(a, b);
}

/// Whether a search for `query` finds `note`: in its title, or, where `all` is
/// set, in its title or its body.
pub open spec fn note_matches(note: NoteView, query: Seq<char>, all: bool) -> bool {
    contains_text(note.title, query) || (all && contains_text(note.content, query))
}

/// The notes of `notes` that a search for `query` finds, in their order.
pub open spec fn matching(notes: Seq<NoteView>, query: Seq<char>, all: bool) -> Seq<NoteView>
    decreases notes.len(),
{
    if notes.len() == 0 {
        Seq::empty()
    } else if note_matches(notes.last(), query, all) {
        matching(notes.drop_last(), query, all).push(notes.last())
    } else {
        matching(notes.drop_last(), query, all)
    }
}

/// The largest number of notes that one store creates.
pub open spec fn issue_limit() -> nat {
    u64::MAX as nat
}

/// The state of a store: its live notes, oldest first, and how many
/// identifiers it has given out.
pub struct StoreView {
    pub notes: Seq<NoteView>,
    pub issued: nat,
}

impl StoreView {
    /// No two live notes share an identifier, every live identifier was given
    /// out by this store, and no live note has an empty title or body.
    pub open spec fn wf(self) -> bool {
        &&& self.issued <= issue_limit()
        &&& forall|i: int, j: int|
            0 <= i < j < self.notes.len() ==> self.notes[i].id != self.notes[j].id
        &&& forall|i: int|
            0 <= i < self.notes.len() ==> is_issued(#[trigger] self.notes[i].id, self.issued)
        &&& forall|i: int|
            0 <= i < self.notes.len() ==> (#[trigger] self.notes[i]).title.len() > 0
                && self.notes[i].content.len() > 0
    }

    /// A live note has the identifier `id`.
    pub open spec fn has_id(self, id: Seq<char>) -> bool {
        exists|i: int| 0 <= i < self.notes.len() && (#[trigger] self.notes[i]).id == id
    }

    /// Where the live note with the identifier `id` stands.
    pub open spec fn position(self, id: Seq<char>) -> int {
        choose|i: int| 0 <= i < self.notes.len() && (#[trigger] self.notes[i]).id == id
    }

    /// `id` was given out and its note is no longer live.
    pub open spec fn retired(self, id: Seq<char>) -> bool {
        is_issued(id, self.issued) && !self.has_id(id)
    }

    /// Whether the store takes a note with this title and body: both are
    /// non-empty and an identifier is left.
    pub open spec fn accepts(self, title: Seq<char>, content: Seq<char>) -> bool {
        title.len() > 0 && content.len() > 0 && self.issued < issue_limit()
    }

    /// The note that adding this title and body creates, if the store takes it.
    pub open spec fn added(self, title: Seq<char>, content: Seq<char>) -> Option<NoteView> {
        if self.accepts(title, content) {
            Some(NoteView { id: note_id(self.issued + 1), title, content })
        } else {
            None
        }
    }

    /// The state after adding this title and body.
    pub open spec fn spec_add(self, title: Seq<char>, content: Seq<char>) -> StoreView {
        match self.added(title, content) {
            Some(note) => StoreView { notes: self.notes.push(note), issued: self.issued + 1 },
            None => self,
        }
    }

    /// The note that removing `id` hands back, if one is live under it.
    pub open spec fn removed(self, id: Seq<char>) -> Option<NoteView> {
        if self.has_id(id) {
            Some(self.notes[self.position(id)])
        } else {
            None
        }
    }

    /// The state after removing `id`.
    pub open spec fn spec_remove(self, id: Seq<char>) -> StoreView {
        if self.has_id(id) {
            StoreView { notes: self.notes.remove(self.position(id)), issued: self.issued }
        } else {
            self
        }
    }

    /// What a search for `query` returns.
    pub open spec fn spec_search(self, query: Seq<char>, all: bool) -> Seq<NoteView> {
        matching(self.notes, query, all)
    }
}

/// Adding keeps a store well formed: the fresh identifier differs from every
/// live one.
pub proof fn lemma_add_keeps_wf(s: StoreView, title: Seq<char>, content: Seq<char>)
    requires
        s.wf(),
    ensures
        s.spec_add(title, content).wf(),
{
    let t = s.spec_add(title, content);
    if s.accepts(title, content) {
        let fresh = note_id(s.issued + 1);
        assert(is_issued(fresh, t.issued)) by {
            assert(1 <= s.issued + 1 <= t.issued && fresh == note_id(s.issued + 1));
        }
        assert forall|i: int| 0 <= i < s.notes.len() implies s.notes[i].id != fresh && is_issued(
            s.notes[i].id,
            t.issued,
        ) by {
            let k = choose|k: nat| 1 <= k <= s.issued && s.notes[i].id == note_id(k);
            assert(1 <= k <= t.issued && s.notes[i].id == note_id(k));
            if s.notes[i].id == fresh {
                lemma_note_id_injective(k, s.issued + 1);
            }
        }
    }
}

/// Removing keeps a store well formed: the notes that stay are as they were.
pub proof fn lemma_remove_keeps_wf(s: StoreView, id: Seq<char>)
    requires
        s.wf(),
    ensures
        s.spec_remove(id).wf(),
{
    let t = s.spec_remove(id);
    if s.has_id(id) {
        let p = s.position(id);
        assert forall|j: int| 0 <= j < t.notes.len() implies t.notes[j] == s.notes[if j < p {
            j
        } else {
            j + 1
        }] by {}
    }
}

/// The authoritative set of notes, held in memory.
pub struct NoteStore {
    notes: Vec<Note>,
    issued: u64,
}

impl View for NoteStore {
    type V = StoreView;

    closed spec fn view(&self) -> StoreView {
        StoreView { notes: views_of(self.notes@), issued: self.issued as nat }
    }
}

impl NoteStore {
    /// A store with no note, which has given out no identifier.
    pub fn new() -> (s: NoteStore)
        ensures
            s@.wf(),
            s@ == (StoreView { notes: Seq::empty(), issued: 0 }),
    {
        let s = NoteStore { notes: Vec::new(), issued: 0 };
        assert(s@.notes =~= Seq::empty());
        s
    }

    /// How many notes are live.
    pub fn len(&self) -> (n: usize)
        ensures
            n == self@.notes.len(),
    {
        self.notes.len()
    }

    /// Creates a note with a fresh identifier and keeps it. Hands back a copy
    /// of it, or `None`, with the store unchanged, where the title or the body
    /// is empty or no identifier is left.
    pub fn add(&mut self, title: &str, content: &str) -> (r: Option<Note>)
        requires
            old(self)@.wf(),
        ensures
            final(self)@.wf(),
            final(self)@ == old(self)@.spec_add(title@, content@),
            match r {
                Some(note) => old(self)@.added(title@, content@) == Some(note@),
                None => old(self)@.added(title@, content@) is None,
            },
    {
        if title.is_empty() || content.is_empty() || self.issued == u64::MAX {
            return None;
        }
        let serial: u64 = self.issued + 1;
        let id: String = String::from_str("n").concat(decimal_string(serial).as_str());
        proof {
            reveal_strlit("n");
            assert(id@ =~= note_id(serial as nat));
        }
        let note = Note {
            id,
            title: String::from_str(title),
            content: String::from_str(content),
        };
        let copy = note.clone();
        self.notes.push(note);
        self.issued = serial;
        proof {
            assert(self@.notes =~= old(self)@.notes.push(copy@));
            lemma_add_keeps_wf(old(self)@, title@, content@);
        }
        Some(copy)
    }

    /// Deletes the note with the identifier `id` and hands it back; `None`,
    /// with the store unchanged, where no live note has that identifier.
    pub fn remove(&mut self, id: &str) -> (r: Option<Note>)
        requires
            old(self)@.wf(),
        ensures
            final(self)@.wf(),
            final(self)@ == old(self)@.spec_remove(id@),
            match r {
                Some(note) => old(self)@.removed(id@) == Some(note@),
                None => old(self)@.removed(id@) is None,
            },
    {
        let wanted: String = String::from_str(id);
        let mut i: usize = 0;
        while i < self.notes.len()
            invariant
                *self == *old(self),
                old(self)@.wf(),
                wanted@ == id@,
                i <= self.notes.len(),
                forall|j: int| 0 <= j < i ==> self@.notes[j].id != id@,
            decreases self.notes.len() - i,
        {
            if self.notes[i].id == wanted {
                proof {
                    let before = old(self)@;
                    assert(before.notes[i as int].id == id@);
                    assert(before.has_id(id@));
                    let p = before.position(id@);
                    assert(0 <= p < before.notes.len() && before.notes[p].id == id@);
                    assert(p == i);
                }
                let note: Note = self.notes.remove(i);
                proof {
                    assert(self@.notes =~= old(self)@.notes.remove(i as int));
                    lemma_remove_keeps_wf(old(self)@, id@);
                }
                return Some(note);
            }
            i = i + 1;
        }
        None
    }

    /// The live notes that `query` is found in, oldest first: in the title,
    /// or, where `all` is set, in the title or the body. The comparison is by
    /// character, with no folding of case.
    pub fn search(&self, query: &str, all: bool) -> (r: Vec<Note>)
        ensures
            views_of(r@) == self@.spec_search(query@, all),
    {
        let mut out: Vec<Note> = Vec::new();
        let mut i: usize = 0;
        while i < self.notes.len()
            invariant
                i <= self.notes.len(),
                views_of(out@) == matching(self@.notes.subrange(0, i as int), query@, all),
            decreases self.notes.len() - i,
        {
            let note: &Note = &self.notes[i];
            let hit: bool = contains(note.title.as_str(), query) || (all && contains(
                note.content.as_str(),
                query,
            ));
            proof {
                let upto = self@.notes.subrange(0, i + 1);
                assert(upto.drop_last() =~= self@.notes.subrange(0, i as int));
                assert(upto.last() == note@);
                assert(hit == note_matches(note@, query@, all));
            }
            if hit {
                let ghost before = views_of(out@);
                out.push(note.clone());
                assert(views_of(out@) =~= before.push(note@));
            }
            i = i + 1;
        }
        assert(self@.notes.subrange(0, i as int) =~= self@.notes);
        out
    }
}

} // verus!
