//! The requests that the operations send to the database, and the replies
//! that come back. Each request stands for one call of the object-relational
//! mapper; whoever runs an operation performs the request and hands the reply
//! back.
use crate::crud::EntityKind;
use crate::models::collection::{self, CollectionRow};
use crate::models::note::{self, NoteRow};
use crate::models::note_tag::{self, NoteTagRow};
use crate::models::notebook::{self, NotebookRow};
use crate::models::tag;
use crate::models::taxonomy::Tag;
use vstd::prelude::*;

verus! {

/// A table of the schema.
#[derive(Clone, Copy, Debug, PartialEq, Eq, Structural)]
pub enum Table {
    Collection,
    Notebook,
    Note,
    Tag,
    NoteTag,
}

/// One row of any table.
#[derive(Clone, Debug)]
pub enum Row {
    Collection(collection::Model),
    Notebook(notebook::Model),
    Note(note::Model),
    Tag(tag::Model),
    NoteTag(note_tag::Model),
}

/// What a row holds.
pub enum RowView {
    Collection(CollectionRow),
    Notebook(NotebookRow),
    Note(NoteRow),
    Tag(Tag),
    NoteTag(NoteTagRow),
}

impl View for Row {
    type V = RowView;

    open spec fn view(&self) -> RowView {
        match self {
            Row::Collection(m) => RowView::Collection(m@),
            Row::Notebook(m) => RowView::Notebook(m@),
            Row::Note(m) => RowView::Note(m@),
            Row::Tag(m) => RowView::Tag(m.tag),
            Row::NoteTag(m) => RowView::NoteTag(m@),
        }
    }
}

/// All rows that a listing query returned, typed by table.
#[derive(Clone, Debug)]
pub enum Rows {
    Collections(Vec<collection::Model>),
    Notebooks(Vec<notebook::Model>),
    Notes(Vec<note::Model>),
    Tags(Vec<tag::Model>),
    NoteTags(Vec<note_tag::Model>),
}

/// What a listing holds.
pub enum RowsView {
    Collections(Seq<CollectionRow>),
    Notebooks(Seq<NotebookRow>),
    Notes(Seq<NoteRow>),
    Tags(Seq<Tag>),
    NoteTags(Seq<NoteTagRow>),
}

impl View for Rows {
    type V = RowsView;

    open spec fn view(&self) -> RowsView {
        match self {
            Rows::Collections(v) => RowsView::Collections(v.deep_view()),
            Rows::Notebooks(v) => RowsView::Notebooks(v.deep_view()),
            Rows::Notes(v) => RowsView::Notes(v.deep_view()),
            Rows::Tags(v) => RowsView::Tags(v.deep_view()),
            Rows::NoteTags(v) => RowsView::NoteTags(v.deep_view()),
        }
    }
}

/// One call of the object-relational mapper.
#[derive(Clone, Debug)]
pub enum Request {
    /// The row of `kind` whose key column equals `key`, if any
    /// (`find().filter(..eq(key)).one()`).
    FindOne { kind: EntityKind, key: String },
    /// Every row of `kind` (`find().all()`).
    FindAll { kind: EntityKind },
    /// The notes related to `notebook` (`find_related(note::Entity).all()`).
    NotesOfNotebook { notebook: notebook::Model },
    /// The note-tag links whose note is `note_name`.
    NoteTagsOfNote { note_name: String },
    /// Insert `row` with every column set.
    Insert { row: Row },
    /// Update the collection `current`, setting each column that is `Some`.
    UpdateCollection { current: collection::Model, name: Option<String>, description: Option<String> },
    /// Update the notebook `current`, setting each column that is `Some`.
    UpdateNotebook {
        current: notebook::Model,
        name: Option<String>,
        description: Option<String>,
        collection_name: Option<String>,
    },
    /// Update the note `current`, setting each column that is `Some`.
    UpdateNote {
        current: note::Model,
        name: Option<String>,
        topic: Option<String>,
        content: Option<String>,
    },
    /// Delete `row`.
    Delete { row: Row },
    /// Delete every note-tag link whose note is `note_name`.
    DeleteNoteTagsOfNote { note_name: String },
    /// Delete every row of `table`.
    DeleteAll { table: Table },
}

/// What a request asks for.
pub enum Query {
    FindOne { kind: EntityKind, key: Seq<char> },
    FindAll { kind: EntityKind },
    NotesOfNotebook { notebook: NotebookRow },
    NoteTagsOfNote { note_name: Seq<char> },
    Insert { row: RowView },
    UpdateCollection {
        current: CollectionRow,
        name: Option<Seq<char>>,
        description: Option<Seq<char>>,
    },
    UpdateNotebook {
        current: NotebookRow,
        name: Option<Seq<char>>,
        description: Option<Seq<char>>,
        collection_name: Option<Seq<char>>,
    },
    UpdateNote {
        current: NoteRow,
        name: Option<Seq<char>>,
        topic: Option<Seq<char>>,
        content: Option<Seq<char>>,
    },
    Delete { row: RowView },
    DeleteNoteTagsOfNote { note_name: Seq<char> },
    DeleteAll { table: Table },
}

impl View for Request {
    type V = Query;

    open spec fn view(&self) -> Query {
        match self {
            Request::FindOne { kind, key } => Query::FindOne { kind: *kind, key: key@ },
            Request::FindAll { kind } => Query::FindAll { kind: *kind },
            Request::NotesOfNotebook { notebook } => Query::NotesOfNotebook { notebook: notebook@ },
            Request::NoteTagsOfNote { note_name } => Query::NoteTagsOfNote { note_name: note_name@ },
            Request::Insert { row } => Query::Insert { row: row@ },
            Request::UpdateCollection { current, name, description } => Query::UpdateCollection {
                current: current@,
                name: name.deep_view(),
                description: description.deep_view(),
            },
            Request::UpdateNotebook { current, name, description, collection_name } =>
                Query::UpdateNotebook {
                    current: current@,
                    name: name.deep_view(),
                    description: description.deep_view(),
                    collection_name: collection_name.deep_view(),
                },
            Request::UpdateNote { current, name, topic, content } => Query::UpdateNote {
                current: current@,
                name: name.deep_view(),
                topic: topic.deep_view(),
                content: content.deep_view(),
            },
            Request::Delete { row } => Query::Delete { row: row@ },
            Request::DeleteNoteTagsOfNote { note_name } => Query::DeleteNoteTagsOfNote {
                note_name: note_name@,
            },
            Request::DeleteAll { table } => Query::DeleteAll { table: *table },
        }
    }
}

/// A successful answer to a request.
#[derive(Clone, Debug)]
pub enum Reply {
    /// The answer to `FindOne`.
    Found(Option<Row>),
    /// The answer to `FindAll`, `NotesOfNotebook` and `NoteTagsOfNote`.
    Listed(Rows),
    /// The row as stored, the answer to `Insert` and the updates.
    Saved(Row),
    /// The answer to the deletions.
    Removed,
}

/// What a reply holds.
pub enum Answer {
    Found(Option<RowView>),
    Listed(RowsView),
    Saved(RowView),
    Removed,
}

impl View for Reply {
    type V = Answer;

    open spec fn view(&self) -> Answer {
        match self {
            Reply::Found(r) => Answer::Found(
                match r {
                    Some(row) => Some(row@),
                    None => None,
                },
            ),
            Reply::Listed(rows) => Answer::Listed(rows@),
            Reply::Saved(row) => Answer::Saved(row@),
            Reply::Removed => Answer::Removed,
        }
    }
}

/// Why an operation failed.
#[derive(Clone, Debug)]
pub enum DbError {
    /// A failure that the operation itself reports, with its message.
    Custom(String),
    /// A failure that the database reported, with its message.
    Backend(String),
    /// A reply that does not answer the request that was sent.
    Unexpected,
}

/// What a failure holds.
pub enum Failure {
    Custom(Seq<char>),
    Backend(Seq<char>),
    Unexpected,
}

impl View for DbError {
    type V = Failure;

    open spec fn view(&self) -> Failure {
        match self {
            DbError::Custom(m) => Failure::Custom(m@),
            DbError::Backend(m) => Failure::Backend(m@),
            DbError::Unexpected => Failure::Unexpected,
        }
    }
}

/// What a reply, or the failure in its place, holds.
pub open spec fn outcome_of(r: Result<Reply, DbError>) -> Result<Answer, Failure> {
    match r {
        Ok(reply) => Ok(reply@),
        Err(e) => Err(e@),
    }
}

/// What an operation does next: send a request, or finish with its result.
#[derive(Debug)]
pub enum Step<T> {
    Ask(Request),
    Done(Result<T, DbError>),
}

/// What a step holds.
pub enum Next<V> {
    Ask(Query),
    Done(Result<V, Failure>),
}

impl<T: DeepView> View for Step<T> {
    type V = Next<T::V>;

    open spec fn view(&self) -> Next<T::V> {
        match self {
            Step::Ask(req) => Next::Ask(req@),
            Step::Done(Ok(t)) => Next::Done(Ok(t.deep_view())),
            Step::Done(Err(e)) => Next::Done(Err(e@)),
        }
    }
}

} // verus!
