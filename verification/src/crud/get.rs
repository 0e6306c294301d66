//! Reading entities: every row of a kind, or one row by name together with
//! what belongs to it.
pub use crate::crud::EntityKind;
use crate::crud::query::{Answer, DbError, Failure, Next, Reply, Request, Query, Row, RowView, Rows, RowsView, Step, outcome_of};
use crate::models::collection::{self, CollectionRow};
use crate::models::note::{self, NoteRow};
use crate::models::note_tag::{self, NoteTagRow};
use crate::models::notebook::{self, NotebookRow};
use crate::models::tag;
use crate::models::taxonomy::Tag;
use vstd::prelude::*;

verus! {

/// Summary view of a note (for listing).
#[derive(Clone, Debug)]
pub struct NoteSummary {
    pub name: String,
    pub topic: String,
    pub notebook_name: String,
}

/// What a note summary holds.
pub struct SummaryView {
    pub name: Seq<char>,
    pub topic: Seq<char>,
    pub notebook_name: Seq<char>,
}

impl DeepView for NoteSummary {
    type V = SummaryView;

    open spec fn deep_view(&self) -> SummaryView {
        SummaryView { name: self.name@, topic: self.topic@, notebook_name: self.notebook_name@ }
    }
}

/// The summary of a stored note: its name, topic and notebook.
pub open spec fn summary_of(n: NoteRow) -> SummaryView {
    SummaryView { name: n.name, topic: n.topic, notebook_name: n.notebook_name }
}

/// Detailed view of a note (for show).
#[derive(Clone, Debug)]
pub struct NoteDetail {
    pub name: String,
    pub topic: String,
    pub content: String,
    pub notebook_name: String,
    pub collection_name: String,
    pub tags: Vec<Tag>,
}

/// What a note detail holds.
pub struct NoteDetailView {
    pub name: Seq<char>,
    pub topic: Seq<char>,
    pub content: Seq<char>,
    pub notebook_name: Seq<char>,
    pub collection_name: Seq<char>,
    pub tags: Seq<Tag>,
}

impl DeepView for NoteDetail {
    type V = NoteDetailView;

    open spec fn deep_view(&self) -> NoteDetailView {
        NoteDetailView {
            name: self.name@,
            topic: self.topic@,
            content: self.content@,
            notebook_name: self.notebook_name@,
            collection_name: self.collection_name@,
            tags: self.tags@,
        }
    }
}

/// Detailed view of a notebook (for show), including its notes.
#[derive(Clone, Debug)]
pub struct NotebookDetail {
    pub name: String,
    pub description: String,
    pub collection_name: String,
    pub notes: Vec<NoteSummary>,
}

/// What a notebook detail holds.
pub struct NotebookDetailView {
    pub name: Seq<char>,
    pub description: Seq<char>,
    pub collection_name: Seq<char>,
    pub notes: Seq<SummaryView>,
}

impl DeepView for NotebookDetail {
    type V = NotebookDetailView;

    open spec fn deep_view(&self) -> NotebookDetailView {
        NotebookDetailView {
            name: self.name@,
            description: self.description@,
            collection_name: self.collection_name@,
            notes: self.notes.deep_view(),
        }
    }
}

/// Holds the result of a `get_all` query, typed by entity.
#[derive(Clone, Debug)]
pub enum GetAllQueryResult {
    Collections(Vec<collection::Model>),
    Notebooks(Vec<notebook::Model>),
    Notes(Vec<NoteSummary>),
    Tags(Vec<tag::Model>),
}

/// What the result of `get_all` holds.
pub enum AllView {
    Collections(Seq<CollectionRow>),
    Notebooks(Seq<NotebookRow>),
    Notes(Seq<SummaryView>),
    Tags(Seq<Tag>),
}

impl DeepView for GetAllQueryResult {
    type V = AllView;

    open spec fn deep_view(&self) -> AllView {
        match self {
            GetAllQueryResult::Collections(v) => AllView::Collections(v.deep_view()),
            GetAllQueryResult::Notebooks(v) => AllView::Notebooks(v.deep_view()),
            GetAllQueryResult::Notes(v) => AllView::Notes(v.deep_view()),
            GetAllQueryResult::Tags(v) => AllView::Tags(v.deep_view()),
        }
    }
}

/// Holds the result of a `get_by_name` query, typed by entity.
#[derive(Clone, Debug)]
pub enum GetByNameQueryResult {
    Collection(collection::Model),
    Notebook(NotebookDetail),
    Note(NoteDetail),
    Tag(tag::Model),
}

/// What the result of `get_by_name` holds.
pub enum ByNameView {
    Collection(CollectionRow),
    Notebook(NotebookDetailView),
    Note(NoteDetailView),
    Tag(Tag),
}

impl DeepView for GetByNameQueryResult {
    type V = ByNameView;

    open spec fn deep_view(&self) -> ByNameView {
        match self {
            GetByNameQueryResult::Collection(m) => ByNameView::Collection(m@),
            GetByNameQueryResult::Notebook(d) => ByNameView::Notebook(d.deep_view()),
            GetByNameQueryResult::Note(d) => ByNameView::Note(d.deep_view()),
            GetByNameQueryResult::Tag(m) => ByNameView::Tag(m.tag),
        }
    }
}

/// The summaries of `notes`, in the same order.
pub fn summarize(notes: &Vec<note::Model>) -> (r: Vec<NoteSummary>)
    ensures
        r.deep_view() == notes.deep_view().map_values(|n: NoteRow| summary_of(n)),
{
    let mut out: Vec<NoteSummary> = Vec::new();
    let mut i: usize = 0;
    while i < notes.len()
        invariant
            i <= notes.len(),
            out.deep_view() =~= notes.deep_view().take(i as int).map_values(|n: NoteRow| summary_of(n)),
        decreases notes.len() - i,
    {
        let n = &notes[i];
        let s = NoteSummary {
            name: n.name.clone(),
            topic: n.topic.clone(),
            notebook_name: n.notebook_name.clone(),
        };
        let ghost before = out.deep_view();
        out.push(s);
        assert(out.deep_view() =~= before.push(s.deep_view()));
        assert(notes.deep_view().take(i + 1) =~= notes.deep_view().take(i as int).push(n@));
        i = i + 1;
    }
    assert(notes.deep_view().take(notes.len() as int) =~= notes.deep_view());
    out
}

// ---------------------------------------------------------------------------
// get_all
// ---------------------------------------------------------------------------

/// The listing that `get_all` asks for.
pub open spec fn get_all_query(kind: EntityKind) -> Query {
    Query::FindAll { kind }
}

/// The result of `get_all` for `kind`, given the reply to its listing.
pub open spec fn get_all_result(kind: EntityKind, r: Result<Answer, Failure>) -> Result<AllView, Failure> {
    match r {
        Err(e) => Err(e),
        Ok(Answer::Listed(rows)) => match (kind, rows) {
            (EntityKind::Collection, RowsView::Collections(v)) => Ok(AllView::Collections(v)),
            (EntityKind::Notebook, RowsView::Notebooks(v)) => Ok(AllView::Notebooks(v)),
            (EntityKind::Note, RowsView::Notes(v)) => Ok(
                AllView::Notes(v.map_values(|n: NoteRow| summary_of(n))),
            ),
            (EntityKind::Tag, RowsView::Tags(v)) => Ok(AllView::Tags(v)),
            _ => Err(Failure::Unexpected),
        },
        Ok(_) => Err(Failure::Unexpected),
    }
}

/// Retrieving all records of one entity kind. It sends one listing and
/// finishes with the reply.
pub struct GetAll {
    pub kind: EntityKind,
    pub finished: bool,
}

/// Retrieve all records for the given entity kind: the operation and the
/// request that it sends first.
pub fn get_all(kind: EntityKind) -> (r: (GetAll, Request))
    ensures
        r.0.kind == kind,
        !r.0.finished,
        r.1@ == get_all_query(kind),
{
    (GetAll { kind, finished: false }, Request::FindAll { kind })
}

impl GetAll {
    /// Hand over the reply to the listing; the operation then finishes.
    /// A reply after that is answered with `Unexpected`.
    pub fn resume(&mut self, reply: Result<Reply, DbError>) -> (step: Step<GetAllQueryResult>)
        ensures
            final(self).kind == old(self).kind,
            final(self).finished,
            step@ == Next::Done(
                if old(self).finished {
                    Err(Failure::Unexpected)
                } else {
                    get_all_result(old(self).kind, outcome_of(reply))
                },
            ),
    {
        if self.finished {
            return Step::Done(Err(DbError::Unexpected));
        }
        self.finished = true;
        match reply {
            Err(e) => Step::Done(Err(e)),
            Ok(Reply::Listed(rows)) => match (self.kind, rows) {
                (EntityKind::Collection, Rows::Collections(v)) => Step::Done(Ok(GetAllQueryResult::Collections(v))),
                (EntityKind::Notebook, Rows::Notebooks(v)) => Step::Done(Ok(GetAllQueryResult::Notebooks(v))),
                (EntityKind::Note, Rows::Notes(v)) => Step::Done(Ok(GetAllQueryResult::Notes(summarize(&v)))),
                (EntityKind::Tag, Rows::Tags(v)) => Step::Done(Ok(GetAllQueryResult::Tags(v))),
                _ => Step::Done(Err(DbError::Unexpected)),
            },
            Ok(_) => Step::Done(Err(DbError::Unexpected)),
        }
    }
}

// ---------------------------------------------------------------------------
// get_by_name
// ---------------------------------------------------------------------------

/// Where a lookup by name stands.
#[derive(Debug)]
pub enum ByNamePhase {
    /// Waiting for the row of `kind` with the name.
    Lookup { kind: EntityKind },
    /// Waiting for the notes of `notebook`.
    NotebookNotes { notebook: notebook::Model },
    /// Waiting for the tag links of `note`.
    NoteLinks { note: note::Model },
    /// Waiting for the tag that `links[next]` names; `tags` holds the tags
    /// found for the links before it.
    NoteTags { note: note::Model, links: Vec<note_tag::Model>, next: usize, tags: Vec<Tag> },
    /// Waiting for the notebook of `note`.
    NoteNotebook { note: note::Model, tags: Vec<Tag> },
    /// The result has been given.
    Finished,
}

/// What a phase of a lookup by name holds.
pub enum ByNameStage {
    Lookup { kind: EntityKind },
    NotebookNotes { notebook: NotebookRow },
    NoteLinks { note: NoteRow },
    NoteTags { note: NoteRow, links: Seq<NoteTagRow>, next: int, tags: Seq<Tag> },
    NoteNotebook { note: NoteRow, tags: Seq<Tag> },
    Finished,
}

impl View for ByNamePhase {
    type V = ByNameStage;

    open spec fn view(&self) -> ByNameStage {
        match self {
            ByNamePhase::Lookup { kind } => ByNameStage::Lookup { kind: *kind },
            ByNamePhase::NotebookNotes { notebook } => ByNameStage::NotebookNotes { notebook: notebook@ },
            ByNamePhase::NoteLinks { note } => ByNameStage::NoteLinks { note: note@ },
            ByNamePhase::NoteTags { note, links, next, tags } => ByNameStage::NoteTags {
                note: note@,
                links: links.deep_view(),
                next: *next as int,
                tags: tags@,
            },
            ByNamePhase::NoteNotebook { note, tags } => ByNameStage::NoteNotebook { note: note@, tags: tags@ },
            ByNamePhase::Finished => ByNameStage::Finished,
        }
    }
}

/// The lookup that `get_by_name` sends first.
pub open spec fn by_name_query(kind: EntityKind, name: Seq<char>) -> Query {
    Query::FindOne { kind, key: name }
}

/// The detail of `notebook` with the summaries of `notes`.
pub open spec fn notebook_detail(notebook: NotebookRow, notes: Seq<NoteRow>) -> NotebookDetailView {
    NotebookDetailView {
        name: notebook.name,
        description: notebook.description,
        collection_name: notebook.collection_name,
        notes: notes.map_values(|n: NoteRow| summary_of(n)),
    }
}

/// The detail of `note` with its tags and the name of its collection.
pub open spec fn note_detail(note: NoteRow, tags: Seq<Tag>, collection_name: Seq<char>) -> NoteDetailView {
    NoteDetailView {
        name: note.name,
        topic: note.topic,
        content: note.content,
        notebook_name: note.notebook_name,
        collection_name,
        tags,
    }
}

/// After the tags of the first `next` links of `note` are known: look up the
/// tag of the next link, or, with none left, the notebook of the note.
pub open spec fn by_name_next_link(note: NoteRow, links: Seq<NoteTagRow>, next: int, tags: Seq<Tag>) -> (
    ByNameStage,
    Next<Option<ByNameView>>,
) {
    if next < links.len() {
        (
            ByNameStage::NoteTags { note, links, next, tags },
            Next::Ask(Query::FindOne { kind: EntityKind::Tag, key: links[next].tag_name }),
        )
    } else {
        (
            ByNameStage::NoteNotebook { note, tags },
            Next::Ask(Query::FindOne { kind: EntityKind::Notebook, key: note.notebook_name }),
        )
    }
}

/// The lookup has failed or is over.
pub open spec fn by_name_done(r: Result<Option<ByNameView>, Failure>) -> (ByNameStage, Next<Option<ByNameView>>) {
    (ByNameStage::Finished, Next::Done(r))
}

/// One step of a lookup by name: the phase after `reply` and what comes next.
/// A failure ends the lookup with that failure; a reply that does not answer
/// the request ends it with `Unexpected`.
pub open spec fn by_name_step(stage: ByNameStage, reply: Result<Answer, Failure>) -> (
    ByNameStage,
    Next<Option<ByNameView>>,
) {
    match (stage, reply) {
        (ByNameStage::Finished, _) => by_name_done(Err(Failure::Unexpected)),
        (_, Err(e)) => by_name_done(Err(e)),
        (ByNameStage::Lookup { kind }, Ok(Answer::Found(None))) => by_name_done(Ok(None)),
        (ByNameStage::Lookup { kind }, Ok(Answer::Found(Some(row)))) => match (kind, row) {
            (EntityKind::Collection, RowView::Collection(c)) => by_name_done(Ok(Some(ByNameView::Collection(c)))),
            (EntityKind::Tag, RowView::Tag(t)) => by_name_done(Ok(Some(ByNameView::Tag(t)))),
            (EntityKind::Notebook, RowView::Notebook(nb)) => (
                ByNameStage::NotebookNotes { notebook: nb },
                Next::Ask(Query::NotesOfNotebook { notebook: nb }),
            ),
            (EntityKind::Note, RowView::Note(n)) => (
                ByNameStage::NoteLinks { note: n },
                Next::Ask(Query::NoteTagsOfNote { note_name: n.name }),
            ),
            _ => by_name_done(Err(Failure::Unexpected)),
        },
        (ByNameStage::NotebookNotes { notebook }, Ok(Answer::Listed(RowsView::Notes(notes)))) =>
            by_name_done(Ok(Some(ByNameView::Notebook(notebook_detail(notebook, notes))))),
        (ByNameStage::NoteLinks { note }, Ok(Answer::Listed(RowsView::NoteTags(links)))) =>
            by_name_next_link(note, links, 0, Seq::empty()),
        (ByNameStage::NoteTags { note, links, next, tags }, Ok(Answer::Found(found))) =>
            if 0 <= next < links.len() {
                match found {
                    None => by_name_next_link(note, links, next + 1, tags),
                    Some(RowView::Tag(t)) => by_name_next_link(note, links, next + 1, tags.push(t)),
                    Some(_) => by_name_done(Err(Failure::Unexpected)),
                }
            } else {
                by_name_done(Err(Failure::Unexpected))
            },
        (ByNameStage::NoteNotebook { note, tags }, Ok(Answer::Found(found))) => match found {
            None => by_name_done(Ok(Some(ByNameView::Note(note_detail(note, tags, Seq::empty()))))),
            Some(RowView::Notebook(nb)) => by_name_done(
                Ok(Some(ByNameView::Note(note_detail(note, tags, nb.collection_name)))),
            ),
            Some(_) => by_name_done(Err(Failure::Unexpected)),
        },
        _ => by_name_done(Err(Failure::Unexpected)),
    }
}

/// Retrieving one record by its kind and name, together with what belongs
/// to it: the notes of a notebook; the tags and the collection of a note.
#[derive(Debug)]
pub struct GetByName {
    pub phase: ByNamePhase,
}

/// Retrieve a single record by its entity kind and name: the operation and
/// the request that it sends first.
pub fn get_by_name(kind: EntityKind, name: &str) -> (r: (GetByName, Request))
    ensures
        r.0.phase@ == (ByNameStage::Lookup { kind }),
        r.1@ == by_name_query(kind, name@),
{
    (GetByName { phase: ByNamePhase::Lookup { kind } }, Request::FindOne { kind, key: String::from_str(name) })
}

impl GetByName {
    /// Send the lookup of the tag of `links[next]`, or, with none left, of
    /// the notebook of `note`.
    fn next_link(&mut self, note: note::Model, links: Vec<note_tag::Model>, next: usize, tags: Vec<Tag>) -> (step: Step<
        Option<GetByNameQueryResult>,
    >)
        ensures
            (final(self).phase@, step@) == by_name_next_link(note@, links.deep_view(), next as int, tags@),
    {
        if next < links.len() {
            let key = links[next].tag_name.clone();
            self.phase = ByNamePhase::NoteTags { note, links, next, tags };
            Step::Ask(Request::FindOne { kind: EntityKind::Tag, key })
        } else {
            let key = note.notebook_name.clone();
            self.phase = ByNamePhase::NoteNotebook { note, tags };
            Step::Ask(Request::FindOne { kind: EntityKind::Notebook, key })
        }
    }

    /// Hand over the reply to the request sent last; the result is the next
    /// request or the result of the lookup.
    pub fn resume(&mut self, reply: Result<Reply, DbError>) -> (step: Step<Option<GetByNameQueryResult>>)
        ensures
            (final(self).phase@, step@) == by_name_step(old(self).phase@, outcome_of(reply)),
    {
        let mut phase = ByNamePhase::Finished;
        std::mem::swap(&mut phase, &mut self.phase);
        match (phase, reply) {
            (ByNamePhase::Finished, _) => Step::Done(Err(DbError::Unexpected)),
            (_, Err(e)) => Step::Done(Err(e)),
            (ByNamePhase::Lookup { kind }, Ok(Reply::Found(None))) => Step::Done(Ok(None)),
            (ByNamePhase::Lookup { kind }, Ok(Reply::Found(Some(row)))) => match (kind, row) {
                (EntityKind::Collection, Row::Collection(c)) => Step::Done(Ok(Some(GetByNameQueryResult::Collection(c)))),
                (EntityKind::Tag, Row::Tag(t)) => Step::Done(Ok(Some(GetByNameQueryResult::Tag(t)))),
                (EntityKind::Notebook, Row::Notebook(nb)) => {
                    let request = Request::NotesOfNotebook { notebook: nb.duplicate() };
                    self.phase = ByNamePhase::NotebookNotes { notebook: nb };
                    Step::Ask(request)
                },
                (EntityKind::Note, Row::Note(n)) => {
                    let request = Request::NoteTagsOfNote { note_name: n.name.clone() };
                    self.phase = ByNamePhase::NoteLinks { note: n };
                    Step::Ask(request)
                },
                _ => Step::Done(Err(DbError::Unexpected)),
            },
            (ByNamePhase::NotebookNotes { notebook }, Ok(Reply::Listed(Rows::Notes(notes)))) => {
                let notes = summarize(&notes);
                Step::Done(Ok(Some(GetByNameQueryResult::Notebook(NotebookDetail {
                    name: notebook.name,
                    description: notebook.description,
                    collection_name: notebook.collection_name,
                    notes,
                }))))
            },
            (ByNamePhase::NoteLinks { note }, Ok(Reply::Listed(Rows::NoteTags(links)))) => {
                self.next_link(note, links, 0, Vec::new())
            },
            (ByNamePhase::NoteTags { note, links, next, tags }, Ok(Reply::Found(found))) => {
                if next < links.len() {
                    match found {
                        None => self.next_link(note, links, next + 1, tags),
                        Some(Row::Tag(t)) => {
                            let mut tags = tags;
                            tags.push(t.tag);
                            self.next_link(note, links, next + 1, tags)
                        },
                        Some(_) => Step::Done(Err(DbError::Unexpected)),
                    }
                } else {
                    Step::Done(Err(DbError::Unexpected))
                }
            },
            (ByNamePhase::NoteNotebook { note, tags }, Ok(Reply::Found(found))) => {
                let collection_name = match found {
                    None => String::new(),
                    Some(Row::Notebook(nb)) => nb.collection_name,
                    Some(_) => {
                        return Step::Done(Err(DbError::Unexpected));
                    },
                };
                Step::Done(Ok(Some(GetByNameQueryResult::Note(NoteDetail {
                    name: note.name,
                    topic: note.topic,
                    content: note.content,
                    notebook_name: note.notebook_name,
                    collection_name,
                    tags,
                }))))
            },
            _ => Step::Done(Err(DbError::Unexpected)),
        }
    }
}

} // verus!
