//! Creating one entity.
use crate::crud::query::{Answer, DbError, Failure, Next, Reply, Request, Query, Row, RowView, Step, Table, outcome_of};
use crate::models::{collection, note, note_tag, notebook, tag};
use crate::models::taxonomy::Tag;
use vstd::prelude::*;

verus! {

/// Data required to create a new entity. Descriptions of notebooks and
/// contents of notes are JSON text.
#[derive(Clone, Debug)]
pub enum NewEntityData {
    Collection { name: String, description: String },
    Notebook { name: String, description: String, collection_name: String },
    Note { name: String, topic: String, content: String, notebook_name: String },
    Tag { tag: Tag },
    NoteTag { note_name: String, tag_name: String },
}

/// The row that `data` describes.
pub open spec fn new_row(data: NewEntityData) -> RowView {
    match data {
        NewEntityData::Collection { name, description } => RowView::Collection(
            collection::CollectionRow { name: name@, description: description@ },
        ),
        NewEntityData::Notebook { name, description, collection_name } => RowView::Notebook(
            notebook::NotebookRow { name: name@, description: description@, collection_name: collection_name@ },
        ),
        NewEntityData::Note { name, topic, content, notebook_name } => RowView::Note(
            note::NoteRow { name: name@, topic: topic@, content: content@, notebook_name: notebook_name@ },
        ),
        NewEntityData::Tag { tag } => RowView::Tag(tag),
        NewEntityData::NoteTag { note_name, tag_name } => RowView::NoteTag(
            note_tag::NoteTagRow { note_name: note_name@, tag_name: tag_name@ },
        ),
    }
}

/// The table that a row belongs to.
pub open spec fn table_of(row: RowView) -> Table {
    match row {
        RowView::Collection(_) => Table::Collection,
        RowView::Notebook(_) => Table::Notebook,
        RowView::Note(_) => Table::Note,
        RowView::Tag(_) => Table::Tag,
        RowView::NoteTag(_) => Table::NoteTag,
    }
}

/// Result of a successful create operation, typed by entity.
#[derive(Clone, Debug)]
pub enum CreateResult {
    Collection(collection::Model),
    Notebook(notebook::Model),
    Note(note::Model),
    Tag(tag::Model),
    NoteTag(note_tag::Model),
}

impl DeepView for CreateResult {
    type V = RowView;

    open spec fn deep_view(&self) -> RowView {
        match self {
            CreateResult::Collection(m) => RowView::Collection(m@),
            CreateResult::Notebook(m) => RowView::Notebook(m@),
            CreateResult::Note(m) => RowView::Note(m@),
            CreateResult::Tag(m) => RowView::Tag(m.tag),
            CreateResult::NoteTag(m) => RowView::NoteTag(m@),
        }
    }
}

/// The result of creating a row of `table`, given the reply to the insert:
/// the row as stored.
pub open spec fn create_result(table: Table, reply: Result<Answer, Failure>) -> Result<RowView, Failure> {
    match reply {
        Err(e) => Err(e),
        Ok(Answer::Saved(row)) => if table_of(row) == table {
            Ok(row)
        } else {
            Err(Failure::Unexpected)
        },
        Ok(_) => Err(Failure::Unexpected),
    }
}

/// Inserting one new record. It sends one insert and finishes with the reply.
pub struct CreateOne {
    pub table: Table,
    pub finished: bool,
}

/// Insert a new record into the database: the operation and the insert
/// that it sends.
pub fn create_one(data: NewEntityData) -> (r: (CreateOne, Request))
    ensures
        r.0.table == table_of(new_row(data)),
        !r.0.finished,
        r.1@ == (Query::Insert { row: new_row(data) }),
{
    let (table, row) = match data {
        NewEntityData::Collection { name, description } => (
            Table::Collection,
            Row::Collection(collection::Model { name, description }),
        ),
        NewEntityData::Notebook { name, description, collection_name } => (
            Table::Notebook,
            Row::Notebook(notebook::Model { name, description, collection_name }),
        ),
        NewEntityData::Note { name, topic, content, notebook_name } => (
            Table::Note,
            Row::Note(note::Model { name, topic, content, notebook_name }),
        ),
        NewEntityData::Tag { tag } => (Table::Tag, Row::Tag(tag::Model { tag })),
        NewEntityData::NoteTag { note_name, tag_name } => (
            Table::NoteTag,
            Row::NoteTag(note_tag::Model { note_name, tag_name }),
        ),
    };
    (CreateOne { table, finished: false }, Request::Insert { row })
}

impl CreateOne {
    /// Hand over the reply to the insert; the operation then finishes. A
    /// reply after that is answered with `Unexpected`.
    pub fn resume(&mut self, reply: Result<Reply, DbError>) -> (step: Step<CreateResult>)
        ensures
            final(self).table == old(self).table,
            final(self).finished,
            step@ == Next::Done(
                if old(self).finished {
                    Err(Failure::Unexpected)
                } else {
                    create_result(old(self).table, outcome_of(reply))
                },
            ),
    {
        if self.finished {
            return Step::Done(Err(DbError::Unexpected));
        }
        self.finished = true;
        match reply {
            Err(e) => Step::Done(Err(e)),
            Ok(Reply::Saved(row)) => match (self.table, row) {
                (Table::Collection, Row::Collection(m)) => Step::Done(Ok(CreateResult::Collection(m))),
                (Table::Notebook, Row::Notebook(m)) => Step::Done(Ok(CreateResult::Notebook(m))),
                (Table::Note, Row::Note(m)) => Step::Done(Ok(CreateResult::Note(m))),
                (Table::Tag, Row::Tag(m)) => Step::Done(Ok(CreateResult::Tag(m))),
                (Table::NoteTag, Row::NoteTag(m)) => Step::Done(Ok(CreateResult::NoteTag(m))),
                _ => Step::Done(Err(DbError::Unexpected)),
            },
            Ok(_) => Step::Done(Err(DbError::Unexpected)),
        }
    }
}

} // verus!
