use vstd::prelude::*;

verus! {

/// An individual note inside a notebook; `name` is its primary key.
/// `content` holds JSON text.
#[derive(Clone, Debug)]
pub struct Model {
    pub name: String,
    pub topic: String,
    pub content: String,
    pub notebook_name: String,
}

/// What a stored note row holds.
pub struct NoteRow {
    pub name: Seq<char>,
    pub topic: Seq<char>,
    pub content: Seq<char>,
    pub notebook_name: Seq<char>,
}

impl View for Model {
    type V = NoteRow;

    open spec fn view(&self) -> NoteRow {
        NoteRow {
            name: self.name@,
            topic: self.topic@,
            content: self.content@,
            notebook_name: self.notebook_name@,
        }
    }
}

impl DeepView for Model {
    type V = NoteRow;

    open spec fn deep_view(&self) -> NoteRow {
        self@
    }
}

} // verus!
