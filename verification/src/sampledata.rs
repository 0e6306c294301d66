//! The sample data set, and its removal: each is a fixed series of requests.
use crate::crud::query::{Answer, DbError, Failure, Next, Reply, Request, Query, Row, RowView, Step, Table, outcome_of};
use crate::models::{collection, note, note_tag, notebook, tag};
use crate::models::taxonomy::Tag;
use vstd::prelude::*;

verus! {

/// Sending a fixed series of requests, one after the other, stopping at the
/// first failure.
#[derive(Debug)]
pub struct Script {
    /// The requests not sent yet, in the order they will be sent.
    pub pending: Vec<Request>,
    pub finished: bool,
}

/// What a script still has to do.
pub struct ScriptView {
    pub pending: Seq<Query>,
    pub finished: bool,
}

impl View for Script {
    type V = ScriptView;

    open spec fn view(&self) -> ScriptView {
        ScriptView { pending: self.pending@.map_values(|r: Request| r@), finished: self.finished }
    }
}

/// One step of a script: after a success the next request is sent, and
/// after the last one the script finishes; a failure ends it.
pub open spec fn script_step(st: ScriptView, reply: Result<Answer, Failure>) -> (ScriptView, Next<()>) {
    if st.finished {
        (st, Next::Done(Err(Failure::Unexpected)))
    } else {
        match reply {
            Err(e) => (ScriptView { pending: st.pending, finished: true }, Next::Done(Err(e))),
            Ok(_) => if st.pending.len() == 0 {
                (ScriptView { pending: st.pending, finished: true }, Next::Done(Ok(())))
            } else {
                (ScriptView { pending: st.pending.drop_first(), finished: false }, Next::Ask(st.pending[0]))
            },
        }
    }
}

impl Script {
    /// Start the series `requests`: the script and the first request.
    fn start(requests: Vec<Request>) -> (r: (Script, Request))
        requires
            requests.len() > 0,
        ensures
            r.0@.pending == requests@.map_values(|q: Request| q@).drop_first(),
            !r.0@.finished,
            r.1@ == requests@[0]@,
    {
        let mut pending = requests;
        let first = pending.remove(0);
        proof {
            assert(pending@.map_values(|q: Request| q@) =~= requests@.map_values(|q: Request| q@).drop_first());
        }
        (Script { pending, finished: false }, first)
    }

    /// Hand over the reply to the request sent last; the result is the next
    /// request, or the end of the series.
    pub fn resume(&mut self, reply: Result<Reply, DbError>) -> (step: Step<()>)
        ensures
            (final(self)@, step@) == script_step(old(self)@, outcome_of(reply)),
    {
        if self.finished {
            return Step::Done(Err(DbError::Unexpected));
        }
        match reply {
            Err(e) => {
                self.finished = true;
                Step::Done(Err(e))
            },
            Ok(_) => {
                if self.pending.len() == 0 {
                    self.finished = true;
                    Step::Done(Ok(()))
                } else {
                    let ghost before = self.pending@;
                    let next = self.pending.remove(0);
                    proof {
                        assert(self.pending@.map_values(|q: Request| q@) =~= before.map_values(|q: Request| q@).drop_first());
                    }
                    Step::Ask(next)
                }
            },
        }
    }
}

/// The rows of the sample data set, in the order they are inserted.
pub open spec fn sample_rows() -> Seq<RowView> {
    seq![
        RowView::Collection(collection::CollectionRow { name: "My Collection 1"@, description: "A collection of study notes 1"@ }),
        RowView::Collection(collection::CollectionRow { name: "My Collection 2"@, description: "A collection of study notes 2"@ }),
        RowView::Collection(collection::CollectionRow { name: "My Collection 3"@, description: "A collection of study notes 3"@ }),
        RowView::Notebook(notebook::NotebookRow { name: "My Notebook 1"@, description: "\"A notebook for my study notes 1\""@, collection_name: "My Collection 1"@ }),
        RowView::Notebook(notebook::NotebookRow { name: "My Notebook 2"@, description: "\"A notebook for my study notes 2\""@, collection_name: "My Collection 2"@ }),
        RowView::Notebook(notebook::NotebookRow { name: "My Notebook 3"@, description: "\"A notebook for my study notes 3\""@, collection_name: "My Collection 3"@ }),
        RowView::Note(note::NoteRow { name: "My First Note 1"@, topic: "General"@, content: "\"This is the content of my first note 1.\""@, notebook_name: "My Notebook 1"@ }),
        RowView::Note(note::NoteRow { name: "My First Note 2"@, topic: "General"@, content: "\"This is the content of my first note 2.\""@, notebook_name: "My Notebook 2"@ }),
        RowView::Note(note::NoteRow { name: "My First Note 3"@, topic: "General"@, content: "\"This is the content of my first note 3.\""@, notebook_name: "My Notebook 3"@ }),
        RowView::Tag(Tag::Important),
        RowView::NoteTag(note_tag::NoteTagRow { note_name: "My First Note 1"@, tag_name: "Important"@ }),
        RowView::NoteTag(note_tag::NoteTagRow { note_name: "My First Note 2"@, tag_name: "Important"@ }),
        RowView::NoteTag(note_tag::NoteTagRow { note_name: "My First Note 3"@, tag_name: "Important"@ }),
    ]
}

/// The inserts of the sample data set.
pub open spec fn sample_inserts() -> Seq<Query> {
    sample_rows().map_values(|row: RowView| Query::Insert { row })
}

/// The tables in the order the sample data is removed: every table before
/// the tables that its rows refer to.
pub open spec fn removal_order() -> Seq<Table> {
    seq![Table::NoteTag, Table::Tag, Table::Note, Table::Notebook, Table::Collection]
}

/// The deletions that remove all sample data.
pub open spec fn sample_removals() -> Seq<Query> {
    removal_order().map_values(|table: Table| Query::DeleteAll { table })
}

/// Insert the sample data set: three collections, a notebook in each, a
/// note in each notebook, the tag `Important`, and a link from each note to
/// that tag. The result is the script and its first request.
pub fn insert_sample_data() -> (r: (Script, Request))
    ensures
        r.0@.pending == sample_inserts().drop_first(),
        !r.0@.finished,
        r.1@ == sample_inserts()[0],
{
    let mut requests: Vec<Request> = Vec::new();
    requests.push(Request::Insert { row: Row::Collection(collection::Model { name: String::from_str("My Collection 1"), description: String::from_str("A collection of study notes 1") }) });
    requests.push(Request::Insert { row: Row::Collection(collection::Model { name: String::from_str("My Collection 2"), description: String::from_str("A collection of study notes 2") }) });
    requests.push(Request::Insert { row: Row::Collection(collection::Model { name: String::from_str("My Collection 3"), description: String::from_str("A collection of study notes 3") }) });
    requests.push(Request::Insert { row: Row::Notebook(notebook::Model { name: String::from_str("My Notebook 1"), description: String::from_str("\"A notebook for my study notes 1\""), collection_name: String::from_str("My Collection 1") }) });
    requests.push(Request::Insert { row: Row::Notebook(notebook::Model { name: String::from_str("My Notebook 2"), description: String::from_str("\"A notebook for my study notes 2\""), collection_name: String::from_str("My Collection 2") }) });
    requests.push(Request::Insert { row: Row::Notebook(notebook::Model { name: String::from_str("My Notebook 3"), description: String::from_str("\"A notebook for my study notes 3\""), collection_name: String::from_str("My Collection 3") }) });
    requests.push(Request::Insert { row: Row::Note(note::Model { name: String::from_str("My First Note 1"), topic: String::from_str("General"), content: String::from_str("\"This is the content of my first note 1.\""), notebook_name: String::from_str("My Notebook 1") }) });
    requests.push(Request::Insert { row: Row::Note(note::Model { name: String::from_str("My First Note 2"), topic: String::from_str("General"), content: String::from_str("\"This is the content of my first note 2.\""), notebook_name: String::from_str("My Notebook 2") }) });
    requests.push(Request::Insert { row: Row::Note(note::Model { name: String::from_str("My First Note 3"), topic: String::from_str("General"), content: String::from_str("\"This is the content of my first note 3.\""), notebook_name: String::from_str("My Notebook 3") }) });
    requests.push(Request::Insert { row: Row::Tag(tag::Model { tag: Tag::Important }) });
    requests.push(Request::Insert { row: Row::NoteTag(note_tag::Model { note_name: String::from_str("My First Note 1"), tag_name: String::from_str("Important") }) });
    requests.push(Request::Insert { row: Row::NoteTag(note_tag::Model { note_name: String::from_str("My First Note 2"), tag_name: String::from_str("Important") }) });
    requests.push(Request::Insert { row: Row::NoteTag(note_tag::Model { note_name: String::from_str("My First Note 3"), tag_name: String::from_str("Important") }) });
    proof {
        assert(requests@.map_values(|q: Request| q@) =~= sample_inserts());
    }
    Script::start(requests)
}

/// Remove all sample data: every row of every table, the note-tag links
/// first and the collections last. The result is the script and its first
/// request.
pub fn remove_sample_data() -> (r: (Script, Request))
    ensures
        r.0@.pending == sample_removals().drop_first(),
        !r.0@.finished,
        r.1@ == sample_removals()[0],
{
    let mut requests: Vec<Request> = Vec::new();
    requests.push(Request::DeleteAll { table: Table::NoteTag });
    requests.push(Request::DeleteAll { table: Table::Tag });
    requests.push(Request::DeleteAll { table: Table::Note });
    requests.push(Request::DeleteAll { table: Table::Notebook });
    requests.push(Request::DeleteAll { table: Table::Collection });
    proof {
        assert(requests@.map_values(|q: Request| q@) =~= sample_removals());
    }
    Script::start(requests)
}

} // verus!
