//! The database as the operations see it: five tables of rows, what a
//! database that keeps its primary and foreign keys answers to each request,
//! and how its writes change the tables. The laws of the library are stated
//! over this model.
use crate::crud::EntityKind;
use crate::crud::query::{Answer, Failure, Next, Query, RowView, RowsView, Table};
use crate::crud::update::updated;
use crate::models::collection::CollectionRow;
use crate::models::note::NoteRow;
use crate::models::note_tag::NoteTagRow;
use crate::models::notebook::NotebookRow;
use crate::models::taxonomy::{Tag, tag_text};
use vstd::prelude::*;

verus! {

/// The rows of every table, each table in the order its rows were inserted.
#[verifier::ext_equal]
pub struct Store {
    pub collections: Seq<CollectionRow>,
    pub notebooks: Seq<NotebookRow>,
    pub notes: Seq<NoteRow>,
    pub tags: Seq<Tag>,
    pub note_tags: Seq<NoteTagRow>,
}

/// A store without rows.
pub open spec fn empty_store() -> Store {
    Store {
        collections: Seq::empty(),
        notebooks: Seq::empty(),
        notes: Seq::empty(),
        tags: Seq::empty(),
        note_tags: Seq::empty(),
    }
}

/// Whether a collection named `k` is stored.
pub open spec fn has_collection(rows: Seq<CollectionRow>, k: Seq<char>) -> bool {
    exists|i: int| 0 <= i < rows.len() && #[trigger] rows[i].name == k
}

/// Whether a notebook named `k` is stored.
pub open spec fn has_notebook(rows: Seq<NotebookRow>, k: Seq<char>) -> bool {
    exists|i: int| 0 <= i < rows.len() && #[trigger] rows[i].name == k
}

/// Whether a note named `k` is stored.
pub open spec fn has_note(rows: Seq<NoteRow>, k: Seq<char>) -> bool {
    exists|i: int| 0 <= i < rows.len() && #[trigger] rows[i].name == k
}

/// Whether a tag stored under the text `k` is stored.
pub open spec fn has_tag(rows: Seq<Tag>, k: Seq<char>) -> bool {
    exists|i: int| 0 <= i < rows.len() && tag_text(#[trigger] rows[i]) == k
}

/// Whether a link of the note `n` to the tag stored under `t` is stored.
pub open spec fn has_link(rows: Seq<NoteTagRow>, n: Seq<char>, t: Seq<char>) -> bool {
    exists|i: int| 0 <= i < rows.len() && #[trigger] rows[i].note_name == n && rows[i].tag_name == t
}

/// The collection named `k`, if stored.
pub open spec fn find_collection(rows: Seq<CollectionRow>, k: Seq<char>) -> Option<CollectionRow> {
    if has_collection(rows, k) {
        Some(rows[choose|i: int| 0 <= i < rows.len() && #[trigger] rows[i].name == k])
    } else {
        None
    }
}

/// The notebook named `k`, if stored.
pub open spec fn find_notebook(rows: Seq<NotebookRow>, k: Seq<char>) -> Option<NotebookRow> {
    if has_notebook(rows, k) {
        Some(rows[choose|i: int| 0 <= i < rows.len() && #[trigger] rows[i].name == k])
    } else {
        None
    }
}

/// The note named `k`, if stored.
pub open spec fn find_note(rows: Seq<NoteRow>, k: Seq<char>) -> Option<NoteRow> {
    if has_note(rows, k) {
        Some(rows[choose|i: int| 0 <= i < rows.len() && #[trigger] rows[i].name == k])
    } else {
        None
    }
}

/// The tag stored under `k`, if stored.
pub open spec fn find_tag(rows: Seq<Tag>, k: Seq<char>) -> Option<Tag> {
    if has_tag(rows, k) {
        Some(rows[choose|i: int| 0 <= i < rows.len() && tag_text(#[trigger] rows[i]) == k])
    } else {
        None
    }
}

/// The row of `kind` stored under `key`, if any: what a lookup answers.
pub open spec fn stored(s: Store, kind: EntityKind, key: Seq<char>) -> Option<RowView> {
    match kind {
        EntityKind::Collection => match find_collection(s.collections, key) {
            Some(r) => Some(RowView::Collection(r)),
            None => None,
        },
        EntityKind::Notebook => match find_notebook(s.notebooks, key) {
            Some(r) => Some(RowView::Notebook(r)),
            None => None,
        },
        EntityKind::Note => match find_note(s.notes, key) {
            Some(r) => Some(RowView::Note(r)),
            None => None,
        },
        EntityKind::Tag => match find_tag(s.tags, key) {
            Some(r) => Some(RowView::Tag(r)),
            None => None,
        },
    }
}

/// Whether a row of another table refers to the row of `kind` stored under
/// `key`.
pub open spec fn referred(s: Store, kind: EntityKind, key: Seq<char>) -> bool {
    match kind {
        EntityKind::Collection => collection_used(s, key),
        EntityKind::Notebook => notebook_used(s, key),
        EntityKind::Note => note_used(s, key),
        EntityKind::Tag => tag_used(s, key),
    }
}

/// Whether `s2` holds the same rows as `s` in every table but that of `kind`.
pub open spec fn same_but(s: Store, s2: Store, kind: EntityKind) -> bool {
    &&& kind != EntityKind::Collection ==> s2.collections == s.collections
    &&& kind != EntityKind::Notebook ==> s2.notebooks == s.notebooks
    &&& kind != EntityKind::Note ==> s2.notes == s.notes
    &&& kind != EntityKind::Tag ==> s2.tags == s.tags
    &&& s2.note_tags == s.note_tags
}

/// Whether no two rows of each table share a primary key, and every row
/// refers only to rows that are stored.
#[verifier::opaque]
pub open spec fn well_formed(s: Store) -> bool {
    &&& forall|i: int, j: int|
        0 <= i < s.collections.len() && 0 <= j < s.collections.len() && #[trigger] s.collections[i].name
            == #[trigger] s.collections[j].name ==> i == j
    &&& forall|i: int, j: int|
        0 <= i < s.notebooks.len() && 0 <= j < s.notebooks.len() && #[trigger] s.notebooks[i].name
            == #[trigger] s.notebooks[j].name ==> i == j
    &&& forall|i: int, j: int|
        0 <= i < s.notes.len() && 0 <= j < s.notes.len() && #[trigger] s.notes[i].name == #[trigger] s.notes[j].name
            ==> i == j
    &&& forall|i: int, j: int|
        0 <= i < s.tags.len() && 0 <= j < s.tags.len() && #[trigger] s.tags[i] == #[trigger] s.tags[j] ==> i == j
    &&& forall|i: int, j: int|
        0 <= i < s.note_tags.len() && 0 <= j < s.note_tags.len() && #[trigger] s.note_tags[i] == #[trigger] s.note_tags[j]
            ==> i == j
    &&& forall|i: int|
        0 <= i < s.notebooks.len() ==> has_collection(s.collections, #[trigger] s.notebooks[i].collection_name)
    &&& forall|i: int| 0 <= i < s.notes.len() ==> has_notebook(s.notebooks, #[trigger] s.notes[i].notebook_name)
    &&& forall|i: int|
        0 <= i < s.note_tags.len() ==> has_note(s.notes, #[trigger] s.note_tags[i].note_name) && has_tag(
            s.tags,
            s.note_tags[i].tag_name,
        )
}

/// The collections without the one named `k`.
pub open spec fn without_collection(rows: Seq<CollectionRow>, k: Seq<char>) -> Seq<CollectionRow> {
    rows.filter(collection_not_named(k))
}

/// Whether a collection is not named `k`.
pub open spec fn collection_not_named(k: Seq<char>) -> spec_fn(CollectionRow) -> bool {
    |r: CollectionRow| r.name != k
}

/// The notebooks without the one named `k`.
pub open spec fn without_notebook(rows: Seq<NotebookRow>, k: Seq<char>) -> Seq<NotebookRow> {
    rows.filter(notebook_not_named(k))
}

/// Whether a notebook is not named `k`.
pub open spec fn notebook_not_named(k: Seq<char>) -> spec_fn(NotebookRow) -> bool {
    |r: NotebookRow| r.name != k
}

/// The notes without the one named `k`.
pub open spec fn without_note(rows: Seq<NoteRow>, k: Seq<char>) -> Seq<NoteRow> {
    rows.filter(note_not_named(k))
}

/// Whether a note is not named `k`.
pub open spec fn note_not_named(k: Seq<char>) -> spec_fn(NoteRow) -> bool {
    |r: NoteRow| r.name != k
}

/// The tags without `t`.
pub open spec fn without_tag(rows: Seq<Tag>, t: Tag) -> Seq<Tag> {
    rows.filter(tag_other_than(t))
}

/// Whether a tag is not `t`.
pub open spec fn tag_other_than(t: Tag) -> spec_fn(Tag) -> bool {
    |r: Tag| r != t
}

/// The links without those of the note `n`.
pub open spec fn links_not_of(rows: Seq<NoteTagRow>, n: Seq<char>) -> Seq<NoteTagRow> {
    rows.filter(link_not_of(n))
}

/// Whether a link is not of the note `n`.
pub open spec fn link_not_of(n: Seq<char>) -> spec_fn(NoteTagRow) -> bool {
    |r: NoteTagRow| r.note_name != n
}

/// The links without `l`.
pub open spec fn without_link(rows: Seq<NoteTagRow>, l: NoteTagRow) -> Seq<NoteTagRow> {
    rows.filter(link_other_than(l))
}

/// Whether a link is not `l`.
pub open spec fn link_other_than(l: NoteTagRow) -> spec_fn(NoteTagRow) -> bool {
    |r: NoteTagRow| r != l
}

/// The links of the note `n`.
pub open spec fn links_of(rows: Seq<NoteTagRow>, n: Seq<char>) -> Seq<NoteTagRow> {
    rows.filter(link_of(n))
}

/// Whether a link is of the note `n`.
pub open spec fn link_of(n: Seq<char>) -> spec_fn(NoteTagRow) -> bool {
    |r: NoteTagRow| r.note_name == n
}

/// The notes in the notebook `n`.
pub open spec fn notes_in(rows: Seq<NoteRow>, n: Seq<char>) -> Seq<NoteRow> {
    rows.filter(|r: NoteRow| r.notebook_name == n)
}

/// Whether some notebook is in the collection `k`.
pub open spec fn collection_used(s: Store, k: Seq<char>) -> bool {
    exists|i: int| 0 <= i < s.notebooks.len() && #[trigger] s.notebooks[i].collection_name == k
}

/// Whether some note is in the notebook `k`.
pub open spec fn notebook_used(s: Store, k: Seq<char>) -> bool {
    exists|i: int| 0 <= i < s.notes.len() && #[trigger] s.notes[i].notebook_name == k
}

/// Whether some link is of the note `k`.
pub open spec fn note_used(s: Store, k: Seq<char>) -> bool {
    exists|i: int| 0 <= i < s.note_tags.len() && #[trigger] s.note_tags[i].note_name == k
}

/// Whether some link is to the tag stored under `k`.
pub open spec fn tag_used(s: Store, k: Seq<char>) -> bool {
    exists|i: int| 0 <= i < s.note_tags.len() && #[trigger] s.note_tags[i].tag_name == k
}

/// Whether the rows of `table` may all go: no row of another table refers
/// to them.
pub open spec fn may_clear(s: Store, table: Table) -> bool {
    match table {
        Table::Collection => s.notebooks.len() == 0,
        Table::Notebook => s.notes.len() == 0,
        Table::Note => s.note_tags.len() == 0,
        Table::Tag => s.note_tags.len() == 0,
        Table::NoteTag => true,
    }
}

/// Whether the row of `kind` stored under `old` may be given the primary key
/// `new`: the key is kept, or the new key is free and no row of another
/// table refers to the old one (the foreign keys do not cascade an update).
pub open spec fn may_rekey(s: Store, kind: EntityKind, old: Seq<char>, new: Seq<char>) -> bool {
    new == old || (stored(s, kind, new) is None && !referred(s, kind, old))
}

/// What the database answers to `q` in the state `s`, and its state
/// afterwards; `None` where it refuses the request: an insert of a row whose
/// primary key is taken or whose references are not stored, an update of a
/// row that is not stored, that gives it a primary key it may not take (see
/// `may_rekey`) or that makes it refer to a row that is not stored, and a
/// deletion of rows that other rows refer to. An update that is accepted
/// replaces the row in place, under its new key where the key changes.
pub open spec fn serve(s: Store, q: Query) -> Option<(Store, Answer)> {
    match q {
        Query::FindOne { kind, key } => Some((s, Answer::Found(stored(s, kind, key)))),
        Query::FindAll { kind } => Some(
            (
                s,
                Answer::Listed(
                    match kind {
                        EntityKind::Collection => RowsView::Collections(s.collections),
                        EntityKind::Notebook => RowsView::Notebooks(s.notebooks),
                        EntityKind::Note => RowsView::Notes(s.notes),
                        EntityKind::Tag => RowsView::Tags(s.tags),
                    },
                ),
            ),
        ),
        Query::NotesOfNotebook { notebook } => Some(
            (s, Answer::Listed(RowsView::Notes(notes_in(s.notes, notebook.name)))),
        ),
        Query::NoteTagsOfNote { note_name } => Some(
            (s, Answer::Listed(RowsView::NoteTags(links_of(s.note_tags, note_name)))),
        ),
        Query::Insert { row } => match row {
            RowView::Collection(r) => if !has_collection(s.collections, r.name) {
                Some((Store { collections: s.collections.push(r), ..s }, Answer::Saved(row)))
            } else {
                None
            },
            RowView::Notebook(r) => if !has_notebook(s.notebooks, r.name) && has_collection(
                s.collections,
                r.collection_name,
            ) {
                Some((Store { notebooks: s.notebooks.push(r), ..s }, Answer::Saved(row)))
            } else {
                None
            },
            RowView::Note(r) => if !has_note(s.notes, r.name) && has_notebook(s.notebooks, r.notebook_name) {
                Some((Store { notes: s.notes.push(r), ..s }, Answer::Saved(row)))
            } else {
                None
            },
            RowView::Tag(t) => if !has_tag(s.tags, tag_text(t)) {
                Some((Store { tags: s.tags.push(t), ..s }, Answer::Saved(row)))
            } else {
                None
            },
            RowView::NoteTag(r) => if !has_link(s.note_tags, r.note_name, r.tag_name) && has_note(
                s.notes,
                r.note_name,
            ) && has_tag(s.tags, r.tag_name) {
                Some((Store { note_tags: s.note_tags.push(r), ..s }, Answer::Saved(row)))
            } else {
                None
            },
        },
        Query::UpdateCollection { current, name, description } => {
            let i = choose|i: int| 0 <= i < s.collections.len() && #[trigger] s.collections[i].name == current.name;
            let stored = s.collections[i];
            let new_row = CollectionRow {
                name: updated(name, stored.name),
                description: updated(description, stored.description),
            };
            if has_collection(s.collections, current.name) && may_rekey(
                s,
                EntityKind::Collection,
                stored.name,
                new_row.name,
            ) {
                Some(
                    (
                        Store { collections: s.collections.update(i, new_row), ..s },
                        Answer::Saved(RowView::Collection(new_row)),
                    ),
                )
            } else {
                None
            }
        },
        Query::UpdateNotebook { current, name, description, collection_name } => {
            let i = choose|i: int| 0 <= i < s.notebooks.len() && #[trigger] s.notebooks[i].name == current.name;
            let stored = s.notebooks[i];
            let new_row = NotebookRow {
                name: updated(name, stored.name),
                description: updated(description, stored.description),
                collection_name: updated(collection_name, stored.collection_name),
            };
            if has_notebook(s.notebooks, current.name) && may_rekey(s, EntityKind::Notebook, stored.name, new_row.name)
                && has_collection(
                s.collections,
                new_row.collection_name,
            ) {
                Some(
                    (
                        Store { notebooks: s.notebooks.update(i, new_row), ..s },
                        Answer::Saved(RowView::Notebook(new_row)),
                    ),
                )
            } else {
                None
            }
        },
        Query::UpdateNote { current, name, topic, content } => {
            let i = choose|i: int| 0 <= i < s.notes.len() && #[trigger] s.notes[i].name == current.name;
            let stored = s.notes[i];
            let new_row = NoteRow {
                name: updated(name, stored.name),
                topic: updated(topic, stored.topic),
                content: updated(content, stored.content),
                notebook_name: stored.notebook_name,
            };
            if has_note(s.notes, current.name) && may_rekey(s, EntityKind::Note, stored.name, new_row.name) {
                Some((Store { notes: s.notes.update(i, new_row), ..s }, Answer::Saved(RowView::Note(new_row))))
            } else {
                None
            }
        },
        Query::Delete { row } => match row {
            RowView::Collection(r) => if !collection_used(s, r.name) {
                Some((Store { collections: without_collection(s.collections, r.name), ..s }, Answer::Removed))
            } else {
                None
            },
            RowView::Notebook(r) => if !notebook_used(s, r.name) {
                Some((Store { notebooks: without_notebook(s.notebooks, r.name), ..s }, Answer::Removed))
            } else {
                None
            },
            RowView::Note(r) => if !note_used(s, r.name) {
                Some((Store { notes: without_note(s.notes, r.name), ..s }, Answer::Removed))
            } else {
                None
            },
            RowView::Tag(t) => if !tag_used(s, tag_text(t)) {
                Some((Store { tags: without_tag(s.tags, t), ..s }, Answer::Removed))
            } else {
                None
            },
            RowView::NoteTag(r) => Some((Store { note_tags: without_link(s.note_tags, r), ..s }, Answer::Removed)),
        },
        Query::DeleteNoteTagsOfNote { note_name } => Some(
            (Store { note_tags: links_not_of(s.note_tags, note_name), ..s }, Answer::Removed),
        ),
        Query::DeleteAll { table } => if may_clear(s, table) {
            Some(
                (
                    match table {
                        Table::Collection => Store { collections: Seq::empty(), ..s },
                        Table::Notebook => Store { notebooks: Seq::empty(), ..s },
                        Table::Note => Store { notes: Seq::empty(), ..s },
                        Table::Tag => Store { tags: Seq::empty(), ..s },
                        Table::NoteTag => Store { note_tags: Seq::empty(), ..s },
                    },
                    Answer::Removed,
                ),
            )
        } else {
            None
        },
    }
}

/// Running an operation against the store: `q` is the request it sends,
/// `step` its step function and `st` its phase. The result is the store
/// afterwards and the result of the operation; `None` where the database
/// refused a request, or the operation asked for more than `fuel` further
/// requests.
pub open spec fn run<St, V>(
    step: spec_fn(St, Result<Answer, Failure>) -> (St, Next<V>),
    st: St,
    s: Store,
    q: Query,
    fuel: nat,
) -> (Store, Option<Result<V, Failure>>)
    decreases fuel,
{
    match serve(s, q) {
        None => (s, None),
        Some((s2, a)) => match step(st, Ok(a)).1 {
            Next::Done(r) => (s2, Some(r)),
            Next::Ask(q2) => if fuel == 0 {
                (s2, None)
            } else {
                run(step, step(st, Ok(a)).0, s2, q2, (fuel - 1) as nat)
            },
        },
    }
}

} // verus!
