//! Updating one entity by its current name, and, for a note, replacing its
//! tags.
use crate::crud::EntityKind;
use crate::crud::query::{Answer, DbError, Failure, Next, Reply, Request, Query, Row, RowView, Step, outcome_of};
use crate::models::{collection, note, notebook, tag, note_tag};
use crate::models::note::NoteRow;
use crate::models::taxonomy::{Tag, all_tag_texts, joined, lemma_tag_text_injective, tag_text};
use crate::text::{trim, trimmed};
use vstd::prelude::*;

verus! {

/// Data describing which fields to update on an entity.
/// Only `Some` fields will be modified. Descriptions of notebooks and
/// contents of notes are JSON text; the tags of a note are given by their
/// stored texts.
#[derive(Clone, Debug)]
pub enum UpdateEntityData {
    Collection { name: Option<String>, description: Option<String> },
    Notebook { name: Option<String>, description: Option<String>, collection_name: Option<String> },
    Note { name: Option<String>, topic: Option<String>, content: Option<String>, tags: Option<Vec<String>> },
}

/// What update data holds.
pub enum UpdateView {
    Collection { name: Option<Seq<char>>, description: Option<Seq<char>> },
    Notebook { name: Option<Seq<char>>, description: Option<Seq<char>>, collection_name: Option<Seq<char>> },
    Note {
        name: Option<Seq<char>>,
        topic: Option<Seq<char>>,
        content: Option<Seq<char>>,
        tags: Option<Seq<Seq<char>>>,
    },
}

impl View for UpdateEntityData {
    type V = UpdateView;

    open spec fn view(&self) -> UpdateView {
        match self {
            UpdateEntityData::Collection { name, description } => UpdateView::Collection {
                name: name.deep_view(),
                description: description.deep_view(),
            },
            UpdateEntityData::Notebook { name, description, collection_name } => UpdateView::Notebook {
                name: name.deep_view(),
                description: description.deep_view(),
                collection_name: collection_name.deep_view(),
            },
            UpdateEntityData::Note { name, topic, content, tags } => UpdateView::Note {
                name: name.deep_view(),
                topic: topic.deep_view(),
                content: content.deep_view(),
                tags: tags.deep_view(),
            },
        }
    }
}

/// Result of a successful update operation, typed by entity.
#[derive(Clone, Debug)]
pub enum UpdateResult {
    Collection(collection::Model),
    Notebook(notebook::Model),
    Note(note::Model),
}

impl DeepView for UpdateResult {
    type V = RowView;

    open spec fn deep_view(&self) -> RowView {
        match self {
            UpdateResult::Collection(m) => RowView::Collection(m@),
            UpdateResult::Notebook(m) => RowView::Notebook(m@),
            UpdateResult::Note(m) => RowView::Note(m@),
        }
    }
}

/// The tag stored under `text`, if there is one.
pub open spec fn tag_named(text: Seq<char>) -> Option<Tag> {
    if exists|t: Tag| tag_text(t) == text {
        Some(choose|t: Tag| tag_text(t) == text)
    } else {
        None
    }
}

/// The message of the failure for a tag text that names no tag.
pub open spec fn unknown_tag_message(text: Seq<char>) -> Seq<char> {
    "Unknown tag '"@ + text + "'. Valid tags: "@ + joined(all_tag_texts(), ", "@)
}

/// Where an update stands.
#[derive(Debug)]
pub enum UpdatePhase {
    /// Waiting for the row named `current_name`.
    Lookup { current_name: String, data: UpdateEntityData },
    /// Waiting for the updated row of `kind`; for a note, `tags` are the
    /// tags to give the note named `note_name` afterwards.
    Saving { kind: EntityKind, note_name: String, tags: Option<Vec<String>> },
    /// Waiting for the removal of the old tag links of the note.
    ClearingTags { note: note::Model, note_name: String, tags: Vec<String> },
    /// Waiting for the lookup of `tag`, stored as `tag_val`, the trimmed
    /// `tags[next]`.
    FindingTag { note: note::Model, note_name: String, tags: Vec<String>, next: usize, tag: Tag, tag_val: String },
    /// Waiting for the insertion of the tag stored as `tag_val`.
    InsertingTag { note: note::Model, note_name: String, tags: Vec<String>, next: usize, tag_val: String },
    /// Waiting for the insertion of the link of the note to the tag of
    /// `tags[next]`.
    Linking { note: note::Model, note_name: String, tags: Vec<String>, next: usize },
    /// The result has been given.
    Finished,
}

/// What a phase of an update holds.
pub enum UpdateStage {
    Lookup { current_name: Seq<char>, data: UpdateView },
    Saving { kind: EntityKind, note_name: Seq<char>, tags: Option<Seq<Seq<char>>> },
    ClearingTags { note: NoteRow, note_name: Seq<char>, tags: Seq<Seq<char>> },
    FindingTag { note: NoteRow, note_name: Seq<char>, tags: Seq<Seq<char>>, next: int, tag: Tag, tag_val: Seq<char> },
    InsertingTag { note: NoteRow, note_name: Seq<char>, tags: Seq<Seq<char>>, next: int, tag_val: Seq<char> },
    Linking { note: NoteRow, note_name: Seq<char>, tags: Seq<Seq<char>>, next: int },
    Finished,
}

impl View for UpdatePhase {
    type V = UpdateStage;

    open spec fn view(&self) -> UpdateStage {
        match self {
            UpdatePhase::Lookup { current_name, data } => UpdateStage::Lookup {
                current_name: current_name@,
                data: data@,
            },
            UpdatePhase::Saving { kind, note_name, tags } => UpdateStage::Saving {
                kind: *kind,
                note_name: note_name@,
                tags: tags.deep_view(),
            },
            UpdatePhase::ClearingTags { note, note_name, tags } => UpdateStage::ClearingTags {
                note: note@,
                note_name: note_name@,
                tags: tags.deep_view(),
            },
            UpdatePhase::FindingTag { note, note_name, tags, next, tag, tag_val } => UpdateStage::FindingTag {
                note: note@,
                note_name: note_name@,
                tags: tags.deep_view(),
                next: *next as int,
                tag: *tag,
                tag_val: tag_val@,
            },
            UpdatePhase::InsertingTag { note, note_name, tags, next, tag_val } => UpdateStage::InsertingTag {
                note: note@,
                note_name: note_name@,
                tags: tags.deep_view(),
                next: *next as int,
                tag_val: tag_val@,
            },
            UpdatePhase::Linking { note, note_name, tags, next } => UpdateStage::Linking {
                note: note@,
                note_name: note_name@,
                tags: tags.deep_view(),
                next: *next as int,
            },
            UpdatePhase::Finished => UpdateStage::Finished,
        }
    }
}

/// The kind of entity that update data is for.
pub open spec fn update_kind(data: UpdateView) -> EntityKind {
    match data {
        UpdateView::Collection { .. } => EntityKind::Collection,
        UpdateView::Notebook { .. } => EntityKind::Notebook,
        UpdateView::Note { .. } => EntityKind::Note,
    }
}

/// `row` with every column that `data` gives set to the given value, and
/// every other column as it was.
pub open spec fn update_applied(row: RowView, data: UpdateView) -> RowView {
    match (row, data) {
        (RowView::Collection(c), UpdateView::Collection { name, description }) => RowView::Collection(
            collection::CollectionRow {
                name: updated(name, c.name),
                description: updated(description, c.description),
            },
        ),
        (RowView::Notebook(nb), UpdateView::Notebook { name, description, collection_name }) => RowView::Notebook(
            notebook::NotebookRow {
                name: updated(name, nb.name),
                description: updated(description, nb.description),
                collection_name: updated(collection_name, nb.collection_name),
            },
        ),
        (RowView::Note(n), UpdateView::Note { name, topic, content, tags }) => RowView::Note(
            NoteRow {
                name: updated(name, n.name),
                topic: updated(topic, n.topic),
                content: updated(content, n.content),
                notebook_name: n.notebook_name,
            },
        ),
        _ => row,
    }
}

/// The value of a column after an update that sets it to `new` if given.
pub open spec fn updated(new: Option<Seq<char>>, old: Seq<char>) -> Seq<char> {
    match new {
        Some(v) => v,
        None => old,
    }
}

/// The update finishes with `r`.
pub open spec fn update_done(r: Result<Option<RowView>, Failure>) -> (UpdateStage, Next<Option<RowView>>) {
    (UpdateStage::Finished, Next::Done(r))
}

/// After the first `next` tags of the note have been linked: validate the
/// next tag and look it up, or, with none left, finish with the updated note.
pub open spec fn sync_next(note: NoteRow, note_name: Seq<char>, tags: Seq<Seq<char>>, next: int) -> (
    UpdateStage,
    Next<Option<RowView>>,
) {
    if next < tags.len() {
        let tag_val = trimmed(tags[next]);
        match tag_named(tag_val) {
            None => update_done(Err(Failure::Custom(unknown_tag_message(tag_val)))),
            Some(tag) => (
                UpdateStage::FindingTag { note, note_name, tags, next, tag, tag_val },
                Next::Ask(Query::FindOne { kind: EntityKind::Tag, key: tag_val }),
            ),
        }
    } else {
        update_done(Ok(Some(RowView::Note(note))))
    }
}

/// The insertion of the link between the note and a tag.
pub open spec fn link_query(note_name: Seq<char>, tag_val: Seq<char>) -> Query {
    Query::Insert { row: RowView::NoteTag(note_tag::NoteTagRow { note_name, tag_name: tag_val }) }
}

/// One step of an update: the phase after `reply` and what comes next.
pub open spec fn update_step(stage: UpdateStage, reply: Result<Answer, Failure>) -> (UpdateStage, Next<Option<RowView>>) {
    match (stage, reply) {
        (UpdateStage::Finished, _) => update_done(Err(Failure::Unexpected)),
        (_, Err(e)) => update_done(Err(e)),
        (UpdateStage::Lookup { current_name, data }, Ok(Answer::Found(None))) => update_done(Ok(None)),
        (UpdateStage::Lookup { current_name, data }, Ok(Answer::Found(Some(row)))) => match (data, row) {
            (UpdateView::Collection { name, description }, RowView::Collection(c)) => (
                UpdateStage::Saving { kind: EntityKind::Collection, note_name: current_name, tags: None },
                Next::Ask(Query::UpdateCollection { current: c, name, description }),
            ),
            (UpdateView::Notebook { name, description, collection_name }, RowView::Notebook(nb)) => (
                UpdateStage::Saving { kind: EntityKind::Notebook, note_name: current_name, tags: None },
                Next::Ask(Query::UpdateNotebook { current: nb, name, description, collection_name }),
            ),
            (UpdateView::Note { name, topic, content, tags }, RowView::Note(n)) => (
                UpdateStage::Saving {
                    kind: EntityKind::Note,
                    note_name: match name {
                        Some(v) => v,
                        None => current_name,
                    },
                    tags,
                },
                Next::Ask(Query::UpdateNote { current: n, name, topic, content }),
            ),
            _ => update_done(Err(Failure::Unexpected)),
        },
        (UpdateStage::Saving { kind, note_name, tags }, Ok(Answer::Saved(row))) => match (kind, row) {
            (EntityKind::Collection, RowView::Collection(c)) => update_done(Ok(Some(RowView::Collection(c)))),
            (EntityKind::Notebook, RowView::Notebook(nb)) => update_done(Ok(Some(RowView::Notebook(nb)))),
            (EntityKind::Note, RowView::Note(n)) => match tags {
                None => update_done(Ok(Some(RowView::Note(n)))),
                Some(tags) => (
                    UpdateStage::ClearingTags { note: n, note_name, tags },
                    Next::Ask(Query::DeleteNoteTagsOfNote { note_name }),
                ),
            },
            _ => update_done(Err(Failure::Unexpected)),
        },
        (UpdateStage::ClearingTags { note, note_name, tags }, Ok(Answer::Removed)) => sync_next(note, note_name, tags, 0),
        (UpdateStage::FindingTag { note, note_name, tags, next, tag, tag_val }, Ok(Answer::Found(found))) => match found {
            None => (
                UpdateStage::InsertingTag { note, note_name, tags, next, tag_val },
                Next::Ask(Query::Insert { row: RowView::Tag(tag) }),
            ),
            Some(RowView::Tag(_)) => (
                UpdateStage::Linking { note, note_name, tags, next },
                Next::Ask(link_query(note_name, tag_val)),
            ),
            Some(_) => update_done(Err(Failure::Unexpected)),
        },
        (UpdateStage::InsertingTag { note, note_name, tags, next, tag_val }, Ok(Answer::Saved(RowView::Tag(_)))) => (
            UpdateStage::Linking { note, note_name, tags, next },
            Next::Ask(link_query(note_name, tag_val)),
        ),
        (UpdateStage::Linking { note, note_name, tags, next }, Ok(Answer::Saved(RowView::NoteTag(_)))) =>
            if 0 <= next < tags.len() {
                sync_next(note, note_name, tags, next + 1)
            } else {
                update_done(Err(Failure::Unexpected))
            },
        _ => update_done(Err(Failure::Unexpected)),
    }
}

/// Updating one record by its current name; for a note with tags given,
/// its links to tags are replaced by links to the given tags, each tag
/// being created first where it does not exist yet.
#[derive(Debug)]
pub struct UpdateOne {
    pub phase: UpdatePhase,
}

/// Update an existing record identified by `current_name`: the operation and
/// the lookup that it sends first. It finishes with `None` if the record was
/// not found.
pub fn update_one(current_name: &str, data: UpdateEntityData) -> (r: (UpdateOne, Request))
    ensures
        r.0.phase@ == (UpdateStage::Lookup { current_name: current_name@, data: data@ }),
        r.1@ == (Query::FindOne { kind: update_kind(data@), key: current_name@ }),
{
    let kind = match &data {
        UpdateEntityData::Collection { .. } => EntityKind::Collection,
        UpdateEntityData::Notebook { .. } => EntityKind::Notebook,
        UpdateEntityData::Note { .. } => EntityKind::Note,
    };
    (
        UpdateOne { phase: UpdatePhase::Lookup { current_name: String::from_str(current_name), data } },
        Request::FindOne { kind, key: String::from_str(current_name) },
    )
}

/// The tag stored under `text`, if there is one.
fn find_tag(text: &str) -> (r: Option<Tag>)
    ensures
        r == tag_named(text@),
{
    let r = Tag::from_value(text);
    proof {
        if let Some(t) = r {
            let c = choose|t: Tag| tag_text(t) == text@;
            lemma_tag_text_injective(t, c);
        }
    }
    r
}

impl UpdateOne {
    /// Validate the tag `tags[next]` and send its lookup, or, with none
    /// left, finish with the updated note.
    fn sync_next(&mut self, note: note::Model, note_name: String, tags: Vec<String>, next: usize) -> (step: Step<
        Option<UpdateResult>,
    >)
        ensures
            (final(self).phase@, step@) == sync_next(note@, note_name@, tags.deep_view(), next as int),
    {
        if next < tags.len() {
            let tag_val = String::from_str(trim(tags[next].as_str()));
            match find_tag(tag_val.as_str()) {
                None => {
                    let mut message = String::from_str("Unknown tag '");
                    message.append(tag_val.as_str());
                    message.append("'. Valid tags: ");
                    let valid = Tag::valid_values();
                    message.append(valid.as_str());
                    self.phase = UpdatePhase::Finished;
                    Step::Done(Err(DbError::Custom(message)))
                },
                Some(tag) => {
                    let key = tag_val.clone();
                    self.phase = UpdatePhase::FindingTag { note, note_name, tags, next, tag, tag_val };
                    Step::Ask(Request::FindOne { kind: EntityKind::Tag, key })
                },
            }
        } else {
            self.phase = UpdatePhase::Finished;
            Step::Done(Ok(Some(UpdateResult::Note(note))))
        }
    }

    /// Hand over the reply to the request sent last; the result is the next
    /// request or the result of the update.
    pub fn resume(&mut self, reply: Result<Reply, DbError>) -> (step: Step<Option<UpdateResult>>)
        ensures
            (final(self).phase@, step@) == update_step(old(self).phase@, outcome_of(reply)),
    {
        let mut phase = UpdatePhase::Finished;
        std::mem::swap(&mut phase, &mut self.phase);
        match (phase, reply) {
            (UpdatePhase::Finished, _) => Step::Done(Err(DbError::Unexpected)),
            (_, Err(e)) => Step::Done(Err(e)),
            (UpdatePhase::Lookup { current_name, data }, Ok(Reply::Found(None))) => Step::Done(Ok(None)),
            (UpdatePhase::Lookup { current_name, data }, Ok(Reply::Found(Some(row)))) => match (data, row) {
                (UpdateEntityData::Collection { name, description }, Row::Collection(c)) => {
                    self.phase = UpdatePhase::Saving { kind: EntityKind::Collection, note_name: current_name, tags: None };
                    Step::Ask(Request::UpdateCollection { current: c, name, description })
                },
                (UpdateEntityData::Notebook { name, description, collection_name }, Row::Notebook(nb)) => {
                    self.phase = UpdatePhase::Saving { kind: EntityKind::Notebook, note_name: current_name, tags: None };
                    Step::Ask(Request::UpdateNotebook { current: nb, name, description, collection_name })
                },
                (UpdateEntityData::Note { name, topic, content, tags }, Row::Note(n)) => {
                    let note_name = match &name {
                        Some(v) => v.clone(),
                        None => current_name,
                    };
                    self.phase = UpdatePhase::Saving { kind: EntityKind::Note, note_name, tags };
                    Step::Ask(Request::UpdateNote { current: n, name, topic, content })
                },
                _ => Step::Done(Err(DbError::Unexpected)),
            },
            (UpdatePhase::Saving { kind, note_name, tags }, Ok(Reply::Saved(row))) => match (kind, row) {
                (EntityKind::Collection, Row::Collection(c)) => Step::Done(Ok(Some(UpdateResult::Collection(c)))),
                (EntityKind::Notebook, Row::Notebook(nb)) => Step::Done(Ok(Some(UpdateResult::Notebook(nb)))),
                (EntityKind::Note, Row::Note(n)) => match tags {
                    None => Step::Done(Ok(Some(UpdateResult::Note(n)))),
                    Some(tags) => {
                        let request = Request::DeleteNoteTagsOfNote { note_name: note_name.clone() };
                        self.phase = UpdatePhase::ClearingTags { note: n, note_name, tags };
                        Step::Ask(request)
                    },
                },
                _ => Step::Done(Err(DbError::Unexpected)),
            },
            (UpdatePhase::ClearingTags { note, note_name, tags }, Ok(Reply::Removed)) => {
                self.sync_next(note, note_name, tags, 0)
            },
            (UpdatePhase::FindingTag { note, note_name, tags, next, tag, tag_val }, Ok(Reply::Found(found))) => {
                match found {
                    None => {
                        self.phase = UpdatePhase::InsertingTag { note, note_name, tags, next, tag_val };
                        Step::Ask(Request::Insert { row: Row::Tag(tag::Model { tag }) })
                    },
                    Some(Row::Tag(_)) => {
                        let request = Request::Insert {
                            row: Row::NoteTag(note_tag::Model { note_name: note_name.clone(), tag_name: tag_val }),
                        };
                        self.phase = UpdatePhase::Linking { note, note_name, tags, next };
                        Step::Ask(request)
                    },
                    Some(_) => Step::Done(Err(DbError::Unexpected)),
                }
            },
            (UpdatePhase::InsertingTag { note, note_name, tags, next, tag_val }, Ok(Reply::Saved(Row::Tag(_)))) => {
                let request = Request::Insert {
                    row: Row::NoteTag(note_tag::Model { note_name: note_name.clone(), tag_name: tag_val }),
                };
                self.phase = UpdatePhase::Linking { note, note_name, tags, next };
                Step::Ask(request)
            },
            (UpdatePhase::Linking { note, note_name, tags, next }, Ok(Reply::Saved(Row::NoteTag(_)))) => {
                if next < tags.len() {
                    self.sync_next(note, note_name, tags, next + 1)
                } else {
                    Step::Done(Err(DbError::Unexpected))
                }
            },
            _ => Step::Done(Err(DbError::Unexpected)),
        }
    }
}

} // verus!
