//! The note: an identifier, a title and a body, and its display form.

use vstd::prelude::*;
use vstd::string::*;

verus! {

/// A short text note as the service keeps it and hands it out.
#[derive(Debug, PartialEq, Eq)]
pub struct Note {
    /// Opaque identifier, given by the service when the note is created.
    pub id: String,
    /// The first line of what the user wrote.
    pub title: String,
    /// Everything after the first line.
    pub content: String,
}

/// What a note holds, as sequences of characters.
pub struct NoteView {
    pub id: Seq<char>,
    pub title: Seq<char>,
    pub content: Seq<char>,
}

impl NoteView {
    /// The display form: the title, a colon and a space, then the body.
    pub open spec fn rendering(self) -> Seq<char> {
        self.title + seq![':', ' '] + self.content
    }
}

impl View for Note {
    type V = NoteView;

    open spec fn view(&self) -> NoteView {
        NoteView { id: self.id@, title: self.title@, content: self.content@ }
    }
}

impl Clone for Note {
    fn clone(&self) -> (r: Note)
        ensures
            r@ == self@,
    {
        Note { id: self.id.clone(), title: self.title.clone(), content: self.content.clone() }
    }
}

impl Note {
    /// The display form of the note.
    pub fn render(&self) -> (s: String)
        ensures
            s@ == self@.rendering(),
    {
        proof {
            reveal_strlit(": ");
        }
        let s: String = self.title.clone().concat(": ").concat(self.content.as_str());
        assert(": "@ =~= seq![':', ' ']);
        s
    }
}

/// The views of a list of notes, in order.
pub open spec fn views_of(notes: Seq<Note>) -> Seq<NoteView> {
    Seq::new(notes.len(), |i: int| notes[i]@)
}

} // verus!
