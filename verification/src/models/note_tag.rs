use vstd::prelude::*;

verus! {

/// The link between a note and a tag; the pair of names is its primary key.
#[derive(Clone, Debug)]
pub struct Model {
    pub note_name: String,
    pub tag_name: String,
}

/// What a stored note-tag row holds.
pub struct NoteTagRow {
    pub note_name: Seq<char>,
    pub tag_name: Seq<char>,
}

impl View for Model {
    type V = NoteTagRow;

    open spec fn view(&self) -> NoteTagRow {
        NoteTagRow { note_name: self.note_name@, tag_name: self.tag_name@ }
    }
}

impl DeepView for Model {
    type V = NoteTagRow;

    open spec fn deep_view(&self) -> NoteTagRow {
        self@
    }
}

} // verus!
