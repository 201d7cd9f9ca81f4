//! What holds of a store over its life: a note that was added is found, a note
//! that was removed is never found again, and a search by title reads titles
//! only.

use crate::note::NoteView;
use crate::store::{
    is_issued, lemma_add_keeps_wf, lemma_note_id_injective, lemma_remove_keeps_wf, matching,
    note_id, note_matches, StoreView,
};
use crate::text::contains_text;
use vstd::prelude::*;

verus! {

/// One change of a store.
pub enum Change {
    /// A note with this title and body is added.
    Add(Seq<char>, Seq<char>),
    /// The note with this identifier is removed.
    Remove(Seq<char>),
}

/// The state after one change.
pub open spec fn after_change(s: StoreView, change: Change) -> StoreView {
    match change {
        Change::Add(title, content) => s.spec_add(title, content),
        Change::Remove(id) => s.spec_remove(id),
    }
}

/// The state after a run of changes, made in order.
pub open spec fn after_changes(s: StoreView, changes: Seq<Change>) -> StoreView
    decreases changes.len(),
{
    if changes.len() == 0 {
        s
    } else {
        after_change(after_changes(s, changes.drop_last()), changes.last())
    }
}

/// Every note that a search returns is a live note that the query is found in,
/// and every such live note is returned.
pub proof fn lemma_search_is_exact(notes: Seq<NoteView>, query: Seq<char>, all: bool)
    ensures
        forall|n: NoteView| #[trigger]
            matching(notes, query, all).contains(n) <==> notes.contains(n) && note_matches(
                n,
                query,
                all,
            ),
    decreases notes.len(),
{
    let found = matching(notes, query, all);
    if notes.len() > 0 {
        let front = notes.drop_last();
        let last = notes.last();
        lemma_search_is_exact(front, query, all);
        let sub = matching(front, query, all);
        assert(notes =~= front.push(last));
        assert(found == if note_matches(last, query, all) {
            sub.push(last)
        } else {
            sub
        });
        assert forall|n: NoteView| #[trigger]
            found.contains(n) <==> notes.contains(n) && note_matches(n, query, all) by {
            if found.contains(n) {
                let i = choose|i: int| 0 <= i < found.len() && found[i] == n;
                if note_matches(last, query, all) && i == sub.len() {
                    assert(notes[notes.len() - 1] == n);
                } else {
                    assert(sub[i] == n);
                    assert(sub.contains(n));
                    let j = choose|j: int| 0 <= j < front.len() && front[j] == n;
                    assert(notes[j] == n);
                }
            }
            if notes.contains(n) && note_matches(n, query, all) {
                let j = choose|j: int| 0 <= j < notes.len() && notes[j] == n;
                if j == notes.len() - 1 {
                    assert(found[found.len() - 1] == n);
                } else {
                    assert(front[j] == n);
                    assert(front.contains(n));
                    assert(sub.contains(n));
                    let i = choose|i: int| 0 <= i < sub.len() && sub[i] == n;
                    assert(found[i] == n);
                }
            }
        }
    }
}

/// A change keeps a store well formed.
pub proof fn lemma_change_keeps_wf(s: StoreView, change: Change)
    requires
        s.wf(),
    ensures
        after_change(s, change).wf(),
{
    match change {
        Change::Add(title, content) => lemma_add_keeps_wf(s, title, content),
        Change::Remove(id) => lemma_remove_keeps_wf(s, id),
    }
}

/// A change leaves every other note as it was: a note that is live after it
/// was live before it, identifier, title and body unchanged, or is the note
/// that the change added.
pub proof fn lemma_change_keeps_notes(s: StoreView, change: Change, n: NoteView)
    requires
        after_change(s, change).notes.contains(n),
    ensures
        s.notes.contains(n) || match change {
            Change::Add(title, content) => s.added(title, content) == Some(n),
            Change::Remove(_) => false,
        },
{
    let t = after_change(s, change);
    let j = choose|j: int| 0 <= j < t.notes.len() && t.notes[j] == n;
    match change {
        Change::Add(title, content) => {
            if s.accepts(title, content) && j < s.notes.len() {
                assert(s.notes[j] == n);
            }
        },
        Change::Remove(id) => {
            if s.has_id(id) {
                let p = s.position(id);
                let i = if j < p { j } else { j + 1 };
                assert(s.notes[i] == n);
            }
        },
    }
}

/// After a note with a non-empty title and body was added, a search over
/// titles and bodies for any part of its body returns a note with that title
/// and body, displayed as the title, a colon and a space, and the body.
pub proof fn lemma_added_note_is_found(
    s: StoreView,
    title: Seq<char>,
    content: Seq<char>,
    query: Seq<char>,
)
    requires
        s.wf(),
        s.accepts(title, content),
        contains_text(content, query),
    ensures
        s.added(title, content) is Some,
        s.spec_add(title, content).spec_search(query, true).contains(s.added(title, content)->0),
        s.added(title, content)->0.rendering() == title + seq![':', ' '] + content,
{
    let note = s.added(title, content)->0;
    let t = s.spec_add(title, content);
    lemma_search_is_exact(t.notes, query, true);
    assert(t.notes[t.notes.len() - 1] == note);
    assert(t.notes.contains(note));
}

/// Removing a live note retires its identifier.
pub proof fn lemma_remove_retires(s: StoreView, id: Seq<char>)
    requires
        s.wf(),
        s.has_id(id),
    ensures
        s.spec_remove(id).retired(id),
{
    let t = s.spec_remove(id);
    let p = s.position(id);
    assert(is_issued(s.notes[p].id, s.issued));
    if t.has_id(id) {
        let j = choose|j: int| 0 <= j < t.notes.len() && t.notes[j].id == id;
        let k = if j < p { j } else { j + 1 };
        assert(t.notes[j] == s.notes[k]);
        assert(s.notes[k].id == s.notes[p].id);
    }
}

/// A retired identifier stays retired through any change.
pub proof fn lemma_change_keeps_retired(s: StoreView, id: Seq<char>, change: Change)
    requires
        s.wf(),
        s.retired(id),
    ensures
        after_change(s, change).retired(id),
{
    let t = after_change(s, change);
    let k = choose|k: nat| 1 <= k <= s.issued && id == note_id(k);
    match change {
        Change::Add(title, content) => {
            if s.accepts(title, content) {
                assert(1 <= k <= t.issued && id == note_id(k));
                if t.has_id(id) {
                    let j = choose|j: int| 0 <= j < t.notes.len() && t.notes[j].id == id;
                    if j < s.notes.len() {
                        assert(s.notes[j].id == id);
                    } else {
                        lemma_note_id_injective(k, s.issued + 1);
                    }
                }
            }
        },
        Change::Remove(other) => {
            if s.has_id(other) {
                let p = s.position(other);
                if t.has_id(id) {
                    let j = choose|j: int| 0 <= j < t.notes.len() && t.notes[j].id == id;
                    let i = if j < p { j } else { j + 1 };
                    assert(t.notes[j] == s.notes[i]);
                    assert(s.notes[i].id == id);
                }
            }
        },
    }
}

/// Once a note was removed, no search returns its identifier again, whatever
/// is added or removed in between and whatever is searched for.
pub proof fn lemma_removed_note_is_never_found(
    s: StoreView,
    id: Seq<char>,
    changes: Seq<Change>,
    query: Seq<char>,
    all: bool,
)
    requires
        s.wf(),
        s.has_id(id),
    ensures
        forall|n: NoteView| #[trigger]
            after_changes(s.spec_remove(id), changes).spec_search(query, all).contains(n) ==> n.id
                != id,
{
    lemma_remove_retires(s, id);
    lemma_change_keeps_wf(s, Change::Remove(id));
    let start = s.spec_remove(id);
    lemma_changes_keep_retired(start, id, changes);
    let end = after_changes(start, changes);
    lemma_search_is_exact(end.notes, query, all);
    assert forall|n: NoteView| #[trigger]
        end.spec_search(query, all).contains(n) implies n.id != id by {
        assert(end.notes.contains(n));
        let j = choose|j: int| 0 <= j < end.notes.len() && end.notes[j] == n;
        if n.id == id {
            assert(end.notes[j].id == id);
            assert(end.has_id(id));
        }
    }
}

/// A retired identifier stays retired, and the store well formed, through any
/// run of changes.
pub proof fn lemma_changes_keep_retired(s: StoreView, id: Seq<char>, changes: Seq<Change>)
    requires
        s.wf(),
        s.retired(id),
    ensures
        after_changes(s, changes).wf(),
        after_changes(s, changes).retired(id),
    decreases changes.len(),
{
    if changes.len() > 0 {
        lemma_changes_keep_retired(s, id, changes.drop_last());
        let mid = after_changes(s, changes.drop_last());
        lemma_change_keeps_wf(mid, changes.last());
        lemma_change_keeps_retired(mid, id, changes.last());
    }
}

/// A search by title returns no note whose title lacks the query, wherever
/// else the query stands.
pub proof fn lemma_title_search_reads_titles_only(s: StoreView, query: Seq<char>)
    ensures
        forall|n: NoteView| #[trigger]
            s.spec_search(query, false).contains(n) ==> contains_text(n.title, query),
        forall|n: NoteView|
            s.notes.contains(n) && !contains_text(n.title, query) ==> !(#[trigger] s.spec_search(
                query,
                false,
            ).contains(n)),
{
    lemma_search_is_exact(s.notes, query, false);
}

/// Removing an identifier a second time hands back nothing and changes
/// nothing.
pub proof fn lemma_second_remove_is_absent(s: StoreView, id: Seq<char>)
    requires
        s.wf(),
    ensures
        s.spec_remove(id).removed(id) is None,
        s.spec_remove(id).spec_remove(id) == s.spec_remove(id),
{
    if s.has_id(id) {
        lemma_remove_retires(s, id);
    }
}

} // verus!
