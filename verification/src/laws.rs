//! The laws of the library: what holds of every input, across calls, or of
//! every state, proved over the step functions of the operations and the
//! model of the database in `store`.
use crate::crud::EntityKind;
use crate::crud::delete::{DeleteStage, delete_step};
use crate::crud::get::{
    AllView, ByNameStage, ByNameView, by_name_next_link, by_name_step, get_all_result, note_detail, notebook_detail,
    summary_of,
};
use crate::crud::new::{create_result, table_of};
use crate::crud::query::{Answer, Failure, Next, Query, RowView, Table};
use crate::crud::update::{
    UpdateStage, UpdateView, link_query, sync_next, tag_named, unknown_tag_message, update_applied, update_kind,
    update_step, updated,
};
use crate::models::collection::CollectionRow;
use crate::models::note::NoteRow;
use crate::models::note_tag::NoteTagRow;
use crate::models::notebook::NotebookRow;
use crate::models::taxonomy::{Tag, all_tags, lemma_all_tags_complete, lemma_tag_text_injective, tag_text};
use crate::sampledata::{ScriptView, sample_inserts, sample_removals, sample_rows, script_step};
use crate::store::{
    Store, empty_store, find_collection, find_note, find_notebook, find_tag, has_collection, has_link, has_note,
    has_tag, links_not_of, links_of, may_rekey, notes_in, referred, run, same_but, serve, stored, well_formed,
    collection_not_named, collection_used, note_not_named, note_used, notebook_not_named, notebook_used, tag_other_than,
    tag_used, without_collection, without_note, without_notebook, without_tag, has_notebook, link_of,
};
use crate::tables::{
    lemma_filter_unique, lemma_insert_well_formed, lemma_push_collection, lemma_push_note, lemma_push_notebook, lemma_push_tag,
    lemma_update_collection, lemma_update_note, lemma_update_notebook, lemma_without_collection,
    lemma_without_note, lemma_without_notebook, lemma_without_tag,
};
use crate::json::json_normal;
use crate::text::trimmed;
use vstd::prelude::*;

verus! {

/// The text a tag is stored under names that tag and no other.
pub proof fn law_tag_text_names_tag(t: Tag)
    ensures
        tag_named(tag_text(t)) == Some(t),
{
    let c = choose|u: Tag| tag_text(u) == tag_text(t);
    lemma_tag_text_injective(c, t);
}

/// The list of all tags holds every tag exactly once.
pub proof fn law_all_tags_once(t: Tag)
    ensures
        all_tags().contains(t),
        all_tags().no_duplicates(),
{
    lemma_all_tags_complete(t);
    assert forall|i: int, j: int| 0 <= i < all_tags().len() && 0 <= j < all_tags().len() && i != j implies all_tags()[i]
        != all_tags()[j] by {
        assert(all_tags().len() == 24);
    }
}

/// A failure reported for a request ends the operation that sent it, with
/// that failure, whatever the operation and its phase.
pub proof fn law_failure_ends_operation(e: Failure, kind: EntityKind, table: Table)
    ensures
        get_all_result(kind, Err(e)) == Err::<AllView, Failure>(e),
        create_result(table, Err(e)) == Err::<RowView, Failure>(e),
        forall|st: ByNameStage| !(st is Finished) ==> #[trigger] by_name_step(st, Err(e)) == (
            ByNameStage::Finished,
            Next::<Option<ByNameView>>::Done(Err(e)),
        ),
        forall|st: DeleteStage| !(st is Finished) ==> #[trigger] delete_step(st, Err(e)) == (
            DeleteStage::Finished,
            Next::<bool>::Done(Err(e)),
        ),
        forall|st: UpdateStage| !(st is Finished) ==> #[trigger] update_step(st, Err(e)) == (
            UpdateStage::Finished,
            Next::<Option<RowView>>::Done(Err(e)),
        ),
        forall|st: ScriptView| !st.finished ==> #[trigger] script_step(st, Err(e)) == (
            ScriptView { pending: st.pending, finished: true },
            Next::<()>::Done(Err(e)),
        ),
{
}

/// Retrieving all records of a kind gives every stored row of that kind, in
/// the order of the table, notes as their summaries; nothing is changed.
pub proof fn law_get_all(s: Store, kind: EntityKind)
    ensures
        ({
            let r = get_all_result(kind, Ok(serve(s, Query::FindAll { kind }).unwrap().1));
            &&& serve(s, Query::FindAll { kind }).unwrap().0 == s
            &&& r == Ok::<AllView, Failure>(
                match kind {
                    EntityKind::Collection => AllView::Collections(s.collections),
                    EntityKind::Notebook => AllView::Notebooks(s.notebooks),
                    EntityKind::Note => AllView::Notes(s.notes.map_values(|n: NoteRow| summary_of(n))),
                    EntityKind::Tag => AllView::Tags(s.tags),
                },
            )
        }),
{
}

/// Deleting a record by kind and name, where no other row refers to it:
/// the result is whether such a record was stored; afterwards none is, every
/// other record of the kind is still found as before, and the other tables
/// are untouched.
pub proof fn law_delete_one(s: Store, kind: EntityKind, name: Seq<char>)
    requires
        well_formed(s),
        !referred(s, kind, name),
    ensures
        ({
            let (s2, r) = run(
                |st: DeleteStage, rep: Result<Answer, Failure>| delete_step(st, rep),
                DeleteStage::Lookup { kind },
                s,
                Query::FindOne { kind, key: name },
                1,
            );
            &&& r == Some(Ok::<bool, Failure>(stored(s, kind, name) is Some))
            &&& stored(s2, kind, name) is None
            &&& forall|k: Seq<char>| k != name ==> #[trigger] stored(s2, kind, k) == stored(s, kind, k)
            &&& same_but(s, s2, kind)
        }),
{
    reveal(well_formed);
    let step = |st: DeleteStage, rep: Result<Answer, Failure>| delete_step(st, rep);
    reveal_with_fuel(run, 2);
    let (s2, r) = run(step, DeleteStage::Lookup { kind }, s, Query::FindOne { kind, key: name }, 1);
    match stored(s, kind, name) {
        None => {
            assert(s2 == s);
        },
        Some(row) => {
            match kind {
                EntityKind::Collection => {
                    assert forall|k: Seq<char>| k != name implies #[trigger] stored(s2, kind, k) == stored(s, kind, k) by {
                        lemma_without_collection(s.collections, name, k);
                    }
                    lemma_without_collection(s.collections, name, name);
                },
                EntityKind::Notebook => {
                    assert forall|k: Seq<char>| k != name implies #[trigger] stored(s2, kind, k) == stored(s, kind, k) by {
                        lemma_without_notebook(s.notebooks, name, k);
                    }
                    lemma_without_notebook(s.notebooks, name, name);
                },
                EntityKind::Note => {
                    assert forall|k: Seq<char>| k != name implies #[trigger] stored(s2, kind, k) == stored(s, kind, k) by {
                        lemma_without_note(s.notes, name, k);
                    }
                    lemma_without_note(s.notes, name, name);
                },
                EntityKind::Tag => {
                    let t = row->Tag_0;
                    assert(tag_text(t) == name);
                    assert forall|k: Seq<char>| k != name implies #[trigger] stored(s2, kind, k) == stored(s, kind, k) by {
                        lemma_without_tag(s.tags, t, k);
                    }
                    lemma_without_tag(s.tags, t, name);
                },
            }
        },
    }
}

/// The name that update data gives the record, if it gives one.
pub open spec fn update_name(data: UpdateView) -> Option<Seq<char>> {
    match data {
        UpdateView::Collection { name, .. } => name,
        UpdateView::Notebook { name, .. } => name,
        UpdateView::Note { name, .. } => name,
    }
}

/// Whether update data leaves the tags of a note alone and makes a notebook
/// refer only to a stored collection.
pub open spec fn plain_update(s: Store, data: UpdateView) -> bool {
    match data {
        UpdateView::Collection { .. } => true,
        UpdateView::Notebook { collection_name, .. } => collection_name matches Some(c) ==> has_collection(
            s.collections,
            c,
        ),
        UpdateView::Note { tags, .. } => tags is None,
    }
}

/// Updating a record by its current name changes only the columns that the
/// data gives, its name included: where no record has that name, the result
/// is `None` and nothing changes; where the record may take the new name
/// (the name is kept, or it is free and no other row refers to the record),
/// the result is the record with those columns set, it is stored under its
/// new name and no longer under its old one, every other record is found as
/// before, and the other tables are untouched; otherwise the database
/// refuses the update and nothing changes.
pub proof fn law_update_one(s: Store, current_name: Seq<char>, data: UpdateView)
    requires
        well_formed(s),
        plain_update(s, data),
    ensures
        ({
            let kind = update_kind(data);
            let new_name = updated(update_name(data), current_name);
            let (s2, r) = run(
                |st: UpdateStage, rep: Result<Answer, Failure>| update_step(st, rep),
                UpdateStage::Lookup { current_name, data },
                s,
                Query::FindOne { kind, key: current_name },
                1,
            );
            match stored(s, kind, current_name) {
                None => r == Some(Ok::<Option<RowView>, Failure>(None)) && s2 == s,
                Some(row) => if may_rekey(s, kind, current_name, new_name) {
                    let changed = update_applied(row, data);
                    &&& r == Some(Ok::<Option<RowView>, Failure>(Some(changed)))
                    &&& stored(s2, kind, new_name) == Some(changed)
                    &&& new_name != current_name ==> stored(s2, kind, current_name) is None
                    &&& forall|k: Seq<char>|
                        k != current_name && k != new_name ==> #[trigger] stored(s2, kind, k) == stored(s, kind, k)
                    &&& same_but(s, s2, kind)
                } else {
                    r is None && s2 == s
                },
            }
        }),
{
    reveal(well_formed);
    let kind = update_kind(data);
    reveal_with_fuel(run, 2);
    match stored(s, kind, current_name) {
        None => {},
        Some(row) => {
            match data {
                UpdateView::Collection { .. } => {
                    let i = choose|i: int| 0 <= i < s.collections.len() && #[trigger] s.collections[i].name == current_name;
                    let new_row = update_applied(row, data)->Collection_0;
                    if may_rekey(s, kind, current_name, new_row.name) {
                        assert forall|k: Seq<char>| #[trigger] find_collection(s.collections.update(i, new_row), k) == if k
                            == new_row.name {
                            Some(new_row)
                        } else if k == current_name {
                            None
                        } else {
                            find_collection(s.collections, k)
                        } by {
                            lemma_update_collection(s.collections, i, new_row, k);
                        }
                    }
                },
                UpdateView::Notebook { .. } => {
                    let i = choose|i: int| 0 <= i < s.notebooks.len() && #[trigger] s.notebooks[i].name == current_name;
                    let new_row = update_applied(row, data)->Notebook_0;
                    if may_rekey(s, kind, current_name, new_row.name) {
                        assert forall|k: Seq<char>| #[trigger] find_notebook(s.notebooks.update(i, new_row), k) == if k
                            == new_row.name {
                            Some(new_row)
                        } else if k == current_name {
                            None
                        } else {
                            find_notebook(s.notebooks, k)
                        } by {
                            lemma_update_notebook(s.notebooks, i, new_row, k);
                        }
                    }
                },
                UpdateView::Note { .. } => {
                    let i = choose|i: int| 0 <= i < s.notes.len() && #[trigger] s.notes[i].name == current_name;
                    let new_row = update_applied(row, data)->Note_0;
                    if may_rekey(s, kind, current_name, new_row.name) {
                        assert forall|k: Seq<char>| #[trigger] find_note(s.notes.update(i, new_row), k) == if k
                            == new_row.name {
                            Some(new_row)
                        } else if k == current_name {
                            None
                        } else {
                            find_note(s.notes, k)
                        } by {
                            lemma_update_note(s.notes, i, new_row, k);
                        }
                    }
                },
            }
        },
    }
}

/// The kind of entity a row is of; a note-tag link counts as a tag.
pub open spec fn kind_of(row: RowView) -> EntityKind {
    match row {
        RowView::Collection(_) => EntityKind::Collection,
        RowView::Notebook(_) => EntityKind::Notebook,
        RowView::Note(_) => EntityKind::Note,
        RowView::Tag(_) => EntityKind::Tag,
        RowView::NoteTag(_) => EntityKind::Tag,
    }
}

/// The name a row is looked up by.
pub open spec fn key_of(row: RowView) -> Seq<char> {
    match row {
        RowView::Collection(c) => c.name,
        RowView::Notebook(nb) => nb.name,
        RowView::Note(n) => n.name,
        RowView::Tag(t) => tag_text(t),
        RowView::NoteTag(l) => l.tag_name,
    }
}

/// What looking up a row just inserted into `s` by its name gives.
pub open spec fn read_back(s: Store, row: RowView) -> ByNameView {
    match row {
        RowView::Collection(c) => ByNameView::Collection(c),
        RowView::Notebook(nb) => ByNameView::Notebook(notebook_detail(nb, Seq::empty())),
        RowView::Note(n) => ByNameView::Note(
            note_detail(n, Seq::empty(), find_notebook(s.notebooks, n.notebook_name).unwrap().collection_name),
        ),
        RowView::Tag(t) => ByNameView::Tag(t),
        RowView::NoteTag(_) => ByNameView::Tag(Tag::Important),
    }
}

/// Whether the JSON text of `row`, the description of a notebook or the
/// content of a note, is already in the compact form that `serde_json`
/// writes a JSON value in, which is how it comes back from the database.
pub open spec fn json_as_read(row: RowView) -> bool {
    match row {
        RowView::Notebook(nb) => json_normal(nb.description) == Some(nb.description),
        RowView::Note(n) => json_normal(n.content) == Some(n.content),
        _ => true,
    }
}

/// A record is read back as it was written: once the database has accepted
/// the insert of a collection, notebook, note or tag whose JSON text is in
/// the compact form the database gives JSON back in (as `json_or_text`
/// writes it), creating it gives the row as given, the store stays well
/// formed, and looking the record up by its name gives it back, a new
/// notebook without notes and a new note without tags and with the
/// collection of its notebook.
pub proof fn law_create_then_get(s: Store, row: RowView)
    requires
        well_formed(s),
        json_as_read(row),
        !(row is NoteTag),
        serve(s, Query::Insert { row }) is Some,
    ensures
        ({
            let (s2, a) = serve(s, Query::Insert { row }).unwrap();
            &&& create_result(table_of(row), Ok(a)) == Ok::<RowView, Failure>(row)
            &&& well_formed(s2)
            &&& run(
                |st: ByNameStage, rep: Result<Answer, Failure>| by_name_step(st, rep),
                ByNameStage::Lookup { kind: kind_of(row) },
                s2,
                Query::FindOne { kind: kind_of(row), key: key_of(row) },
                3,
            ).1 == Some(Ok::<Option<ByNameView>, Failure>(Some(read_back(s, row))))
        }),
{
    reveal(well_formed);
    lemma_insert_well_formed(s, row);
    reveal_with_fuel(run, 4);
    let (s2, a) = serve(s, Query::Insert { row }).unwrap();
    match row {
        RowView::Collection(c) => {
            lemma_push_collection(s.collections, c, c.name);
        },
        RowView::Notebook(nb) => {
            lemma_push_notebook(s.notebooks, nb, nb.name);
        },
        RowView::Note(n) => {
            lemma_push_note(s.notes, n, n.name);
            lemma_push_note(s.notes, n, n.name);
        },
        RowView::Tag(t) => {
            lemma_push_tag(s.tags, t, tag_text(t));
        },
        RowView::NoteTag(_) => {},
    }
}

/// The trimmed texts of `tags`.
pub open spec fn tag_values(tags: Seq<Seq<char>>) -> Seq<Seq<char>> {
    tags.map_values(|v: Seq<char>| trimmed(v))
}

/// Links of the note `note_name` to the tags stored under `values`, in order.
pub open spec fn links_to(note_name: Seq<char>, values: Seq<Seq<char>>) -> Seq<NoteTagRow> {
    values.map_values(|v: Seq<char>| NoteTagRow { note_name, tag_name: v })
}

/// Whether each of `tags`, trimmed, is the text of a tag, and no two of
/// them are the same once trimmed.
pub open spec fn valid_distinct_tags(tags: Seq<Seq<char>>) -> bool {
    &&& forall|i: int| 0 <= i < tags.len() ==> #[trigger] tag_named(trimmed(tags[i])) is Some
    &&& tag_values(tags).no_duplicates()
}

/// The link between a note and the tag stored under `v`.
proof fn lemma_link_query(note_name: Seq<char>, v: Seq<char>)
    ensures
        link_query(note_name, v) == (Query::Insert { row: RowView::NoteTag(NoteTagRow { note_name, tag_name: v }) }),
{
}

/// What the tag loop of an update finishes with when it stops at the tag at
/// `stop`: the failure for that tag, or, past the last tag, the note.
pub open spec fn tag_sync_result(note: NoteRow, tags: Seq<Seq<char>>, stop: int) -> Result<Option<RowView>, Failure> {
    if stop < tags.len() {
        Err(Failure::Custom(unknown_tag_message(trimmed(tags[stop]))))
    } else {
        Ok(Some(RowView::Note(note)))
    }
}

/// The loop that links a note to its tags, from the tag at `next` on, where
/// the tags before `stop` are valid and distinct once trimmed and the tag at
/// `stop`, if any, is not: it links the note to each of them in order,
/// creating the tags not stored yet, and then finishes with the note or
/// with the failure for the tag at `stop`.
proof fn lemma_tag_loop(
    note: NoteRow,
    note_name: Seq<char>,
    tags: Seq<Seq<char>>,
    next: int,
    stop: int,
    si: Store,
    base: Seq<NoteTagRow>,
    fuel: nat,
)
    requires
        0 <= next <= stop <= tags.len(),
        fuel >= 3 * (stop - next),
        forall|i: int| 0 <= i < stop ==> #[trigger] tag_named(trimmed(tags[i])) is Some,
        tag_values(tags).take(stop).no_duplicates(),
        stop < tags.len() ==> tag_named(trimmed(tags[stop])) is None,
        has_note(si.notes, note_name),
        forall|j: int| 0 <= j < base.len() ==> (#[trigger] base[j]).note_name != note_name,
        si.note_tags == base + links_to(note_name, tag_values(tags).take(next)),
        forall|j: int| 0 <= j < next ==> has_tag(si.tags, #[trigger] tag_values(tags)[j]),
    ensures
        ({
            let (st, nx) = sync_next(note, note_name, tags, next);
            &&& nx is Done ==> next == stop && nx == Next::<Option<RowView>>::Done(tag_sync_result(note, tags, stop))
            &&& nx matches Next::Ask(q) ==> {
                let (sf, r) = run(
                    |st: UpdateStage, rep: Result<Answer, Failure>| update_step(st, rep),
                    st,
                    si,
                    q,
                    fuel,
                );
                &&& r == Some(tag_sync_result(note, tags, stop))
                &&& sf.note_tags == base + links_to(note_name, tag_values(tags).take(stop))
                &&& forall|j: int| 0 <= j < stop ==> has_tag(sf.tags, #[trigger] tag_values(tags)[j])
                &&& forall|k: Seq<char>| has_tag(si.tags, k) ==> #[trigger] has_tag(sf.tags, k)
                &&& sf.collections == si.collections
                &&& sf.notebooks == si.notebooks
                &&& sf.notes == si.notes
            }
        }),
    decreases stop - next,
{
    let vals = tag_values(tags);
    if next < stop {
        reveal_with_fuel(run, 4);
        let v = trimmed(tags[next]);
        assert(vals[next] == v);
        assert(tag_named(v) is Some);
        let t = tag_named(v).unwrap();
        assert(tag_text(t) == v);
        let link = NoteTagRow { note_name, tag_name: v };
        lemma_link_query(note_name, v);
        // The store once the tag is sure to be stored.
        let st_tag = if has_tag(si.tags, v) { si } else { Store { tags: si.tags.push(t), ..si } };
        if !has_tag(si.tags, v) {
            assert forall|k: Seq<char>| has_tag(si.tags, k) implies #[trigger] has_tag(st_tag.tags, k) by {
                lemma_push_tag(si.tags, t, k);
            }
            lemma_push_tag(si.tags, t, v);
        }
        // The new link is not stored yet.
        let prefix = links_to(note_name, vals.take(next));
        if has_link(st_tag.note_tags, note_name, v) {
            let m = choose|m: int| 0 <= m < st_tag.note_tags.len() && #[trigger] st_tag.note_tags[m].note_name == note_name
                && st_tag.note_tags[m].tag_name == v;
            if m < base.len() {
                assert(st_tag.note_tags[m] == base[m]);
            } else {
                let p = m - base.len();
                assert(st_tag.note_tags[m] == prefix[p]);
                assert(prefix[p].tag_name == vals.take(next)[p]);
                assert(vals.take(stop)[p] == vals[p]);
                assert(vals.take(stop)[next] == vals[next]);
            }
        }
        let s3 = Store { note_tags: st_tag.note_tags.push(link), ..st_tag };
        assert(vals.take(next + 1) =~= vals.take(next).push(v));
        assert(links_to(note_name, vals.take(next + 1)) =~= prefix.push(link));
        assert(s3.note_tags =~= base + links_to(note_name, vals.take(next + 1)));
        assert forall|j: int| 0 <= j < next + 1 implies has_tag(s3.tags, #[trigger] vals[j]) by {
            if j < next {
                assert(has_tag(si.tags, vals[j]));
            }
        }
        lemma_tag_loop(note, note_name, tags, next + 1, stop, s3, base, (fuel - 2) as nat);
        lemma_tag_loop(note, note_name, tags, next + 1, stop, s3, base, (fuel - 3) as nat);
    } else if next < tags.len() {
        assert(tag_named(trimmed(tags[next])) is None);
    }
}

/// A sequence all of whose items pass `p` is its own filter by `p`.
proof fn lemma_filter_keeps_all<A>(xs: Seq<A>, p: spec_fn(A) -> bool)
    requires
        forall|i: int| 0 <= i < xs.len() ==> p(#[trigger] xs[i]),
    ensures
        xs.filter(p) == xs,
    decreases xs.len(),
{
    reveal(Seq::filter);
    if xs.len() > 0 {
        assert forall|i: int| 0 <= i < xs.drop_last().len() implies p(#[trigger] xs.drop_last()[i]) by {
            assert(xs.drop_last()[i] == xs[i]);
        }
        lemma_filter_keeps_all(xs.drop_last(), p);
        assert(xs.drop_last().push(xs.last()) =~= xs);
    }
}

/// Creating a record and deleting it again: once the database has accepted
/// the insert of a collection, notebook, note or tag, deleting the record by
/// its kind and name reports that a record was deleted and leaves the store
/// as it was before the insert.
pub proof fn law_create_then_delete(s: Store, row: RowView)
    requires
        well_formed(s),
        !(row is NoteTag),
        serve(s, Query::Insert { row }) is Some,
    ensures
        ({
            let s2 = serve(s, Query::Insert { row }).unwrap().0;
            run(
                |st: DeleteStage, rep: Result<Answer, Failure>| delete_step(st, rep),
                DeleteStage::Lookup { kind: kind_of(row) },
                s2,
                Query::FindOne { kind: kind_of(row), key: key_of(row) },
                1,
            ) == (s, Some(Ok::<bool, Failure>(true)))
        }),
{
    reveal(well_formed);
    broadcast use Seq::lemma_filter_push;

    reveal_with_fuel(run, 2);
    let s2 = serve(s, Query::Insert { row }).unwrap().0;
    match row {
        RowView::Collection(r) => {
            lemma_push_collection(s.collections, r, r.name);
            assert(!collection_used(s2, r.name)) by {
                if collection_used(s2, r.name) {
                    let m = choose|m: int| 0 <= m < s2.notebooks.len() && #[trigger] s2.notebooks[m].collection_name == r.name;
                    assert(has_collection(s.collections, s.notebooks[m].collection_name));
                }
            }
            lemma_filter_keeps_all(s.collections, collection_not_named(r.name));
            assert(without_collection(s2.collections, r.name) == s.collections);
            assert(Store { collections: without_collection(s2.collections, r.name), ..s2 } =~= s);
        },
        RowView::Notebook(r) => {
            lemma_push_notebook(s.notebooks, r, r.name);
            assert(!notebook_used(s2, r.name)) by {
                if notebook_used(s2, r.name) {
                    let m = choose|m: int| 0 <= m < s2.notes.len() && #[trigger] s2.notes[m].notebook_name == r.name;
                    assert(has_notebook(s.notebooks, s.notes[m].notebook_name));
                }
            }
            lemma_filter_keeps_all(s.notebooks, notebook_not_named(r.name));
            assert(without_notebook(s2.notebooks, r.name) == s.notebooks);
            assert(Store { notebooks: without_notebook(s2.notebooks, r.name), ..s2 } =~= s);
        },
        RowView::Note(r) => {
            lemma_push_note(s.notes, r, r.name);
            assert(!note_used(s2, r.name)) by {
                if note_used(s2, r.name) {
                    let m = choose|m: int| 0 <= m < s2.note_tags.len() && #[trigger] s2.note_tags[m].note_name == r.name;
                    assert(has_note(s.notes, s.note_tags[m].note_name));
                }
            }
            lemma_filter_keeps_all(s.notes, note_not_named(r.name));
            assert(without_note(s2.notes, r.name) == s.notes);
            assert(Store { notes: without_note(s2.notes, r.name), ..s2 } =~= s);
        },
        RowView::Tag(t) => {
            lemma_push_tag(s.tags, t, tag_text(t));
            assert(s2.note_tags == s.note_tags);
            assert(!tag_used(s2, tag_text(t))) by {
                if tag_used(s2, tag_text(t)) {
                    let m = choose|m: int| 0 <= m < s2.note_tags.len() && #[trigger] s2.note_tags[m].tag_name == tag_text(t);
                    assert(0 <= m < s.note_tags.len());
                    assert(has_note(s.notes, s.note_tags[m].note_name));
                    assert(has_tag(s.tags, s.note_tags[m].tag_name));
                    assert(has_tag(s.tags, tag_text(t)));
                }
            }
            assert forall|i: int| 0 <= i < s.tags.len() implies tag_other_than(t)(#[trigger] s.tags[i]) by {
                if s.tags[i] == t {
                    assert(tag_text(s.tags[i]) == tag_text(t));
                }
            }
            lemma_filter_keeps_all(s.tags, tag_other_than(t));
            assert(without_tag(s2.tags, t) == s.tags);
            assert(Store { tags: without_tag(s2.tags, t), ..s2 } =~= s);
        },
        RowView::NoteTag(_) => {},
    }
}

/// Replacing the tags of a note: updating a note that may take the given
/// name (see `may_rekey`) with tags, each a valid tag text once trimmed and
/// no two the same, sets the given columns of the note, its name included,
/// removes the tag links under its name, links it under that name to each
/// given tag in order, creates the tags that were not stored, keeps every
/// other link and tag, and finishes with the updated note.
pub proof fn law_update_note_tags(
    s: Store,
    current_name: Seq<char>,
    name: Option<Seq<char>>,
    topic: Option<Seq<char>>,
    content: Option<Seq<char>>,
    tags: Seq<Seq<char>>,
)
    requires
        well_formed(s),
        has_note(s.notes, current_name),
        may_rekey(s, EntityKind::Note, current_name, updated(name, current_name)),
        valid_distinct_tags(tags),
    ensures
        ({
            let data = UpdateView::Note { name, topic, content, tags: Some(tags) };
            let new_name = updated(name, current_name);
            let note = update_applied(RowView::Note(find_note(s.notes, current_name).unwrap()), data);
            let (s2, r) = run(
                |st: UpdateStage, rep: Result<Answer, Failure>| update_step(st, rep),
                UpdateStage::Lookup { current_name, data },
                s,
                Query::FindOne { kind: EntityKind::Note, key: current_name },
                3 + 3 * tags.len(),
            );
            &&& r == Some(Ok::<Option<RowView>, Failure>(Some(note)))
            &&& stored(s2, EntityKind::Note, new_name) == Some(note)
            &&& new_name != current_name ==> stored(s2, EntityKind::Note, current_name) is None
            &&& s2.note_tags == links_not_of(s.note_tags, new_name) + links_to(new_name, tag_values(tags))
            &&& forall|j: int| 0 <= j < tags.len() ==> has_tag(s2.tags, #[trigger] tag_values(tags)[j])
            &&& forall|k: Seq<char>| has_tag(s.tags, k) ==> #[trigger] has_tag(s2.tags, k)
        }),
{
    reveal(well_formed);
    broadcast use vstd::seq_lib::group_filter_ensures;

    let data = UpdateView::Note { name, topic, content, tags: Some(tags) };
    let n = find_note(s.notes, current_name).unwrap();
    let new_row = update_applied(RowView::Note(n), data)->Note_0;
    let new_name = new_row.name;
    let i = choose|i: int| 0 <= i < s.notes.len() && #[trigger] s.notes[i].name == current_name;
    lemma_update_note(s.notes, i, new_row, current_name);
    lemma_update_note(s.notes, i, new_row, new_name);
    let s1 = Store { notes: s.notes.update(i, new_row), ..s };
    assert(has_note(s1.notes, new_name)) by {
        assert(s1.notes[i].name == new_name);
    }
    let base = links_not_of(s.note_tags, new_name);
    let sc = Store { note_tags: base, ..s1 };
    assert(tag_values(tags).take(0) =~= Seq::<Seq<char>>::empty());
    assert(links_to(new_name, tag_values(tags).take(0)) =~= Seq::<NoteTagRow>::empty());
    assert(sc.note_tags =~= base + links_to(new_name, tag_values(tags).take(0)));
    assert(tag_values(tags).take(tags.len() as int) =~= tag_values(tags));
    lemma_tag_loop(new_row, new_name, tags, 0, tags.len() as int, sc, base, 3 * tags.len());
    reveal_with_fuel(run, 4);
    if tags.len() == 0 {
        assert(tag_values(tags) =~= Seq::<Seq<char>>::empty());
        assert(links_to(new_name, tag_values(tags)) =~= Seq::<NoteTagRow>::empty());
        assert(base + links_to(new_name, tag_values(tags)) =~= base);
    }
}

/// A tag that names no tag: updating a note that may take the given name
/// with tags of which the first `stop` are valid and distinct once trimmed
/// and the next is no tag's text sets the given columns of the note, removes
/// the tag links under its name, links it to those first tags, creating the
/// ones not stored, and then fails with the message that names the unknown
/// tag and lists the valid ones; what was written stays.
pub proof fn law_update_note_unknown_tag(
    s: Store,
    current_name: Seq<char>,
    name: Option<Seq<char>>,
    topic: Option<Seq<char>>,
    content: Option<Seq<char>>,
    tags: Seq<Seq<char>>,
    stop: int,
)
    requires
        well_formed(s),
        has_note(s.notes, current_name),
        may_rekey(s, EntityKind::Note, current_name, updated(name, current_name)),
        0 <= stop < tags.len(),
        forall|i: int| 0 <= i < stop ==> #[trigger] tag_named(trimmed(tags[i])) is Some,
        tag_values(tags).take(stop).no_duplicates(),
        tag_named(trimmed(tags[stop])) is None,
    ensures
        ({
            let data = UpdateView::Note { name, topic, content, tags: Some(tags) };
            let new_name = updated(name, current_name);
            let note = update_applied(RowView::Note(find_note(s.notes, current_name).unwrap()), data);
            let (s2, r) = run(
                |st: UpdateStage, rep: Result<Answer, Failure>| update_step(st, rep),
                UpdateStage::Lookup { current_name, data },
                s,
                Query::FindOne { kind: EntityKind::Note, key: current_name },
                (3 + 3 * stop) as nat,
            );
            &&& r == Some(Err::<Option<RowView>, Failure>(Failure::Custom(unknown_tag_message(trimmed(tags[stop])))))
            &&& stored(s2, EntityKind::Note, new_name) == Some(note)
            &&& new_name != current_name ==> stored(s2, EntityKind::Note, current_name) is None
            &&& s2.note_tags == links_not_of(s.note_tags, new_name) + links_to(
                new_name,
                tag_values(tags).take(stop),
            )
        }),
{
    reveal(well_formed);
    broadcast use vstd::seq_lib::group_filter_ensures;

    let data = UpdateView::Note { name, topic, content, tags: Some(tags) };
    let n = find_note(s.notes, current_name).unwrap();
    let new_row = update_applied(RowView::Note(n), data)->Note_0;
    let new_name = new_row.name;
    let i = choose|i: int| 0 <= i < s.notes.len() && #[trigger] s.notes[i].name == current_name;
    lemma_update_note(s.notes, i, new_row, current_name);
    lemma_update_note(s.notes, i, new_row, new_name);
    let s1 = Store { notes: s.notes.update(i, new_row), ..s };
    assert(has_note(s1.notes, new_name)) by {
        assert(s1.notes[i].name == new_name);
    }
    let base = links_not_of(s.note_tags, new_name);
    let sc = Store { note_tags: base, ..s1 };
    assert(tag_values(tags).take(0) =~= Seq::<Seq<char>>::empty());
    assert(links_to(new_name, tag_values(tags).take(0)) =~= Seq::<NoteTagRow>::empty());
    assert(sc.note_tags =~= base + links_to(new_name, tag_values(tags).take(0)));
    lemma_tag_loop(new_row, new_name, tags, 0, stop, sc, base, 3 * stop as nat);
    reveal_with_fuel(run, 4);
    if stop == 0 {
        assert(base + links_to(new_name, tag_values(tags).take(0)) =~= base);
    }
}

/// Removing the sample data empties every table, whatever the store holds:
/// each table goes before the tables its rows refer to, so the database
/// refuses none of the deletions.
pub proof fn law_remove_sample_data(s: Store)
    ensures
        run(
            |st: ScriptView, rep: Result<Answer, Failure>| script_step(st, rep),
            ScriptView { pending: sample_removals().drop_first(), finished: false },
            s,
            sample_removals()[0],
            4,
        ) == (empty_store(), Some(Ok::<(), Failure>(()))),
{
    reveal_with_fuel(run, 5);
    let r = sample_removals();
    assert(r.drop_first()[0] == r[1]);
    assert(r.drop_first().drop_first()[0] == r[2]);
    assert(r.drop_first().drop_first().drop_first()[0] == r[3]);
    assert(r.drop_first().drop_first().drop_first().drop_first()[0] == r[4]);
    assert(r.drop_first().drop_first().drop_first().drop_first().drop_first().len() == 0);
}

/// The names in the sample data set are pairwise different.
proof fn lemma_sample_names_differ()
    ensures
        "My Collection 1"@ != "My Collection 2"@,
        "My Collection 1"@ != "My Collection 3"@,
        "My Collection 2"@ != "My Collection 3"@,
        "My Notebook 1"@ != "My Notebook 2"@,
        "My Notebook 1"@ != "My Notebook 3"@,
        "My Notebook 2"@ != "My Notebook 3"@,
        "My First Note 1"@ != "My First Note 2"@,
        "My First Note 1"@ != "My First Note 3"@,
        "My First Note 2"@ != "My First Note 3"@,
{
    reveal_strlit("My Collection 1");
    reveal_strlit("My Collection 2");
    reveal_strlit("My Collection 3");
    reveal_strlit("My Notebook 1");
    reveal_strlit("My Notebook 2");
    reveal_strlit("My Notebook 3");
    reveal_strlit("My First Note 1");
    reveal_strlit("My First Note 2");
    reveal_strlit("My First Note 3");
    assert("My Collection 1"@[14] != "My Collection 2"@[14]);
    assert("My Collection 1"@[14] != "My Collection 3"@[14]);
    assert("My Collection 2"@[14] != "My Collection 3"@[14]);
    assert("My Notebook 1"@[12] != "My Notebook 2"@[12]);
    assert("My Notebook 1"@[12] != "My Notebook 3"@[12]);
    assert("My Notebook 2"@[12] != "My Notebook 3"@[12]);
    assert("My First Note 1"@[14] != "My First Note 2"@[14]);
    assert("My First Note 1"@[14] != "My First Note 3"@[14]);
    assert("My First Note 2"@[14] != "My First Note 3"@[14]);
}

/// A script of inserts goes on with its next request once the database
/// has accepted one, and finishes after the last.
proof fn lemma_script_insert(s: Store, pending: Seq<Query>, q: Query, fuel: nat)
    requires
        serve(s, q) is Some,
    ensures
        pending.len() > 0 && fuel > 0 ==> run(
            |st: ScriptView, rep: Result<Answer, Failure>| script_step(st, rep),
            ScriptView { pending, finished: false },
            s,
            q,
            fuel,
        ) == run(
            |st: ScriptView, rep: Result<Answer, Failure>| script_step(st, rep),
            ScriptView { pending: pending.drop_first(), finished: false },
            serve(s, q).unwrap().0,
            pending[0],
            (fuel - 1) as nat,
        ),
        pending.len() == 0 ==> run(
            |st: ScriptView, rep: Result<Answer, Failure>| script_step(st, rep),
            ScriptView { pending, finished: false },
            s,
            q,
            fuel,
        ) == (serve(s, q).unwrap().0, Some(Ok::<(), Failure>(()))),
{
    reveal_with_fuel(run, 2);
}

/// The store that holds exactly the sample data set.
pub open spec fn sample_store() -> Store {
    Store {
        collections: seq![CollectionRow { name: "My Collection 1"@, description: "A collection of study notes 1"@ }, CollectionRow { name: "My Collection 2"@, description: "A collection of study notes 2"@ }, CollectionRow { name: "My Collection 3"@, description: "A collection of study notes 3"@ }],
        notebooks: seq![NotebookRow { name: "My Notebook 1"@, description: "\"A notebook for my study notes 1\""@, collection_name: "My Collection 1"@ }, NotebookRow { name: "My Notebook 2"@, description: "\"A notebook for my study notes 2\""@, collection_name: "My Collection 2"@ }, NotebookRow { name: "My Notebook 3"@, description: "\"A notebook for my study notes 3\""@, collection_name: "My Collection 3"@ }],
        notes: seq![NoteRow { name: "My First Note 1"@, topic: "General"@, content: "\"This is the content of my first note 1.\""@, notebook_name: "My Notebook 1"@ }, NoteRow { name: "My First Note 2"@, topic: "General"@, content: "\"This is the content of my first note 2.\""@, notebook_name: "My Notebook 2"@ }, NoteRow { name: "My First Note 3"@, topic: "General"@, content: "\"This is the content of my first note 3.\""@, notebook_name: "My Notebook 3"@ }],
        tags: seq![Tag::Important],
        note_tags: seq![NoteTagRow { note_name: "My First Note 1"@, tag_name: "Important"@ }, NoteTagRow { note_name: "My First Note 2"@, tag_name: "Important"@ }, NoteTagRow { note_name: "My First Note 3"@, tag_name: "Important"@ }],
    }
}

/// The store once the first `k` rows of the sample data set are inserted.
spec fn sample_stage(k: int) -> Store {
    if k == 0 {
        Store {
            collections: Seq::<CollectionRow>::empty(),
            notebooks: Seq::<NotebookRow>::empty(),
            notes: Seq::<NoteRow>::empty(),
            tags: Seq::<Tag>::empty(),
            note_tags: Seq::<NoteTagRow>::empty(),
        }
    } else if k == 1 {
        Store {
            collections: seq![CollectionRow { name: "My Collection 1"@, description: "A collection of study notes 1"@ }],
            notebooks: Seq::<NotebookRow>::empty(),
            notes: Seq::<NoteRow>::empty(),
            tags: Seq::<Tag>::empty(),
            note_tags: Seq::<NoteTagRow>::empty(),
        }
    } else if k == 2 {
        Store {
            collections: seq![CollectionRow { name: "My Collection 1"@, description: "A collection of study notes 1"@ }, CollectionRow { name: "My Collection 2"@, description: "A collection of study notes 2"@ }],
            notebooks: Seq::<NotebookRow>::empty(),
            notes: Seq::<NoteRow>::empty(),
            tags: Seq::<Tag>::empty(),
            note_tags: Seq::<NoteTagRow>::empty(),
        }
    } else if k == 3 {
        Store {
            collections: seq![CollectionRow { name: "My Collection 1"@, description: "A collection of study notes 1"@ }, CollectionRow { name: "My Collection 2"@, description: "A collection of study notes 2"@ }, CollectionRow { name: "My Collection 3"@, description: "A collection of study notes 3"@ }],
            notebooks: Seq::<NotebookRow>::empty(),
            notes: Seq::<NoteRow>::empty(),
            tags: Seq::<Tag>::empty(),
            note_tags: Seq::<NoteTagRow>::empty(),
        }
    } else if k == 4 {
        Store {
            collections: seq![CollectionRow { name: "My Collection 1"@, description: "A collection of study notes 1"@ }, CollectionRow { name: "My Collection 2"@, description: "A collection of study notes 2"@ }, CollectionRow { name: "My Collection 3"@, description: "A collection of study notes 3"@ }],
            notebooks: seq![NotebookRow { name: "My Notebook 1"@, description: "\"A notebook for my study notes 1\""@, collection_name: "My Collection 1"@ }],
            notes: Seq::<NoteRow>::empty(),
            tags: Seq::<Tag>::empty(),
            note_tags: Seq::<NoteTagRow>::empty(),
        }
    } else if k == 5 {
        Store {
            collections: seq![CollectionRow { name: "My Collection 1"@, description: "A collection of study notes 1"@ }, CollectionRow { name: "My Collection 2"@, description: "A collection of study notes 2"@ }, CollectionRow { name: "My Collection 3"@, description: "A collection of study notes 3"@ }],
            notebooks: seq![NotebookRow { name: "My Notebook 1"@, description: "\"A notebook for my study notes 1\""@, collection_name: "My Collection 1"@ }, NotebookRow { name: "My Notebook 2"@, description: "\"A notebook for my study notes 2\""@, collection_name: "My Collection 2"@ }],
            notes: Seq::<NoteRow>::empty(),
            tags: Seq::<Tag>::empty(),
            note_tags: Seq::<NoteTagRow>::empty(),
        }
    } else if k == 6 {
        Store {
            collections: seq![CollectionRow { name: "My Collection 1"@, description: "A collection of study notes 1"@ }, CollectionRow { name: "My Collection 2"@, description: "A collection of study notes 2"@ }, CollectionRow { name: "My Collection 3"@, description: "A collection of study notes 3"@ }],
            notebooks: seq![NotebookRow { name: "My Notebook 1"@, description: "\"A notebook for my study notes 1\""@, collection_name: "My Collection 1"@ }, NotebookRow { name: "My Notebook 2"@, description: "\"A notebook for my study notes 2\""@, collection_name: "My Collection 2"@ }, NotebookRow { name: "My Notebook 3"@, description: "\"A notebook for my study notes 3\""@, collection_name: "My Collection 3"@ }],
            notes: Seq::<NoteRow>::empty(),
            tags: Seq::<Tag>::empty(),
            note_tags: Seq::<NoteTagRow>::empty(),
        }
    } else if k == 7 {
        Store {
            collections: seq![CollectionRow { name: "My Collection 1"@, description: "A collection of study notes 1"@ }, CollectionRow { name: "My Collection 2"@, description: "A collection of study notes 2"@ }, CollectionRow { name: "My Collection 3"@, description: "A collection of study notes 3"@ }],
            notebooks: seq![NotebookRow { name: "My Notebook 1"@, description: "\"A notebook for my study notes 1\""@, collection_name: "My Collection 1"@ }, NotebookRow { name: "My Notebook 2"@, description: "\"A notebook for my study notes 2\""@, collection_name: "My Collection 2"@ }, NotebookRow { name: "My Notebook 3"@, description: "\"A notebook for my study notes 3\""@, collection_name: "My Collection 3"@ }],
            notes: seq![NoteRow { name: "My First Note 1"@, topic: "General"@, content: "\"This is the content of my first note 1.\""@, notebook_name: "My Notebook 1"@ }],
            tags: Seq::<Tag>::empty(),
            note_tags: Seq::<NoteTagRow>::empty(),
        }
    } else if k == 8 {
        Store {
            collections: seq![CollectionRow { name: "My Collection 1"@, description: "A collection of study notes 1"@ }, CollectionRow { name: "My Collection 2"@, description: "A collection of study notes 2"@ }, CollectionRow { name: "My Collection 3"@, description: "A collection of study notes 3"@ }],
            notebooks: seq![NotebookRow { name: "My Notebook 1"@, description: "\"A notebook for my study notes 1\""@, collection_name: "My Collection 1"@ }, NotebookRow { name: "My Notebook 2"@, description: "\"A notebook for my study notes 2\""@, collection_name: "My Collection 2"@ }, NotebookRow { name: "My Notebook 3"@, description: "\"A notebook for my study notes 3\""@, collection_name: "My Collection 3"@ }],
            notes: seq![NoteRow { name: "My First Note 1"@, topic: "General"@, content: "\"This is the content of my first note 1.\""@, notebook_name: "My Notebook 1"@ }, NoteRow { name: "My First Note 2"@, topic: "General"@, content: "\"This is the content of my first note 2.\""@, notebook_name: "My Notebook 2"@ }],
            tags: Seq::<Tag>::empty(),
            note_tags: Seq::<NoteTagRow>::empty(),
        }
    } else if k == 9 {
        Store {
            collections: seq![CollectionRow { name: "My Collection 1"@, description: "A collection of study notes 1"@ }, CollectionRow { name: "My Collection 2"@, description: "A collection of study notes 2"@ }, CollectionRow { name: "My Collection 3"@, description: "A collection of study notes 3"@ }],
            notebooks: seq![NotebookRow { name: "My Notebook 1"@, description: "\"A notebook for my study notes 1\""@, collection_name: "My Collection 1"@ }, NotebookRow { name: "My Notebook 2"@, description: "\"A notebook for my study notes 2\""@, collection_name: "My Collection 2"@ }, NotebookRow { name: "My Notebook 3"@, description: "\"A notebook for my study notes 3\""@, collection_name: "My Collection 3"@ }],
            notes: seq![NoteRow { name: "My First Note 1"@, topic: "General"@, content: "\"This is the content of my first note 1.\""@, notebook_name: "My Notebook 1"@ }, NoteRow { name: "My First Note 2"@, topic: "General"@, content: "\"This is the content of my first note 2.\""@, notebook_name: "My Notebook 2"@ }, NoteRow { name: "My First Note 3"@, topic: "General"@, content: "\"This is the content of my first note 3.\""@, notebook_name: "My Notebook 3"@ }],
            tags: Seq::<Tag>::empty(),
            note_tags: Seq::<NoteTagRow>::empty(),
        }
    } else if k == 10 {
        Store {
            collections: seq![CollectionRow { name: "My Collection 1"@, description: "A collection of study notes 1"@ }, CollectionRow { name: "My Collection 2"@, description: "A collection of study notes 2"@ }, CollectionRow { name: "My Collection 3"@, description: "A collection of study notes 3"@ }],
            notebooks: seq![NotebookRow { name: "My Notebook 1"@, description: "\"A notebook for my study notes 1\""@, collection_name: "My Collection 1"@ }, NotebookRow { name: "My Notebook 2"@, description: "\"A notebook for my study notes 2\""@, collection_name: "My Collection 2"@ }, NotebookRow { name: "My Notebook 3"@, description: "\"A notebook for my study notes 3\""@, collection_name: "My Collection 3"@ }],
            notes: seq![NoteRow { name: "My First Note 1"@, topic: "General"@, content: "\"This is the content of my first note 1.\""@, notebook_name: "My Notebook 1"@ }, NoteRow { name: "My First Note 2"@, topic: "General"@, content: "\"This is the content of my first note 2.\""@, notebook_name: "My Notebook 2"@ }, NoteRow { name: "My First Note 3"@, topic: "General"@, content: "\"This is the content of my first note 3.\""@, notebook_name: "My Notebook 3"@ }],
            tags: seq![Tag::Important],
            note_tags: Seq::<NoteTagRow>::empty(),
        }
    } else if k == 11 {
        Store {
            collections: seq![CollectionRow { name: "My Collection 1"@, description: "A collection of study notes 1"@ }, CollectionRow { name: "My Collection 2"@, description: "A collection of study notes 2"@ }, CollectionRow { name: "My Collection 3"@, description: "A collection of study notes 3"@ }],
            notebooks: seq![NotebookRow { name: "My Notebook 1"@, description: "\"A notebook for my study notes 1\""@, collection_name: "My Collection 1"@ }, NotebookRow { name: "My Notebook 2"@, description: "\"A notebook for my study notes 2\""@, collection_name: "My Collection 2"@ }, NotebookRow { name: "My Notebook 3"@, description: "\"A notebook for my study notes 3\""@, collection_name: "My Collection 3"@ }],
            notes: seq![NoteRow { name: "My First Note 1"@, topic: "General"@, content: "\"This is the content of my first note 1.\""@, notebook_name: "My Notebook 1"@ }, NoteRow { name: "My First Note 2"@, topic: "General"@, content: "\"This is the content of my first note 2.\""@, notebook_name: "My Notebook 2"@ }, NoteRow { name: "My First Note 3"@, topic: "General"@, content: "\"This is the content of my first note 3.\""@, notebook_name: "My Notebook 3"@ }],
            tags: seq![Tag::Important],
            note_tags: seq![NoteTagRow { note_name: "My First Note 1"@, tag_name: "Important"@ }],
        }
    } else if k == 12 {
        Store {
            collections: seq![CollectionRow { name: "My Collection 1"@, description: "A collection of study notes 1"@ }, CollectionRow { name: "My Collection 2"@, description: "A collection of study notes 2"@ }, CollectionRow { name: "My Collection 3"@, description: "A collection of study notes 3"@ }],
            notebooks: seq![NotebookRow { name: "My Notebook 1"@, description: "\"A notebook for my study notes 1\""@, collection_name: "My Collection 1"@ }, NotebookRow { name: "My Notebook 2"@, description: "\"A notebook for my study notes 2\""@, collection_name: "My Collection 2"@ }, NotebookRow { name: "My Notebook 3"@, description: "\"A notebook for my study notes 3\""@, collection_name: "My Collection 3"@ }],
            notes: seq![NoteRow { name: "My First Note 1"@, topic: "General"@, content: "\"This is the content of my first note 1.\""@, notebook_name: "My Notebook 1"@ }, NoteRow { name: "My First Note 2"@, topic: "General"@, content: "\"This is the content of my first note 2.\""@, notebook_name: "My Notebook 2"@ }, NoteRow { name: "My First Note 3"@, topic: "General"@, content: "\"This is the content of my first note 3.\""@, notebook_name: "My Notebook 3"@ }],
            tags: seq![Tag::Important],
            note_tags: seq![NoteTagRow { note_name: "My First Note 1"@, tag_name: "Important"@ }, NoteTagRow { note_name: "My First Note 2"@, tag_name: "Important"@ }],
        }
    } else {
        sample_store()
    }
}

/// The database accepts the insert of sample row 0.
proof fn lemma_sample_insert_0()
    ensures
        serve(sample_stage(0), sample_inserts()[0]) == Some((sample_stage(1), Answer::Saved(sample_rows()[0]))),
{
    lemma_sample_names_differ();
    assert(sample_inserts()[0] == (Query::Insert { row: sample_rows()[0] }));
    assert(serve(sample_stage(0), sample_inserts()[0]).unwrap().0 =~= sample_stage(1));
}

/// The database accepts the insert of sample row 1.
proof fn lemma_sample_insert_1()
    ensures
        serve(sample_stage(1), sample_inserts()[1]) == Some((sample_stage(2), Answer::Saved(sample_rows()[1]))),
{
    lemma_sample_names_differ();
    assert(sample_inserts()[1] == (Query::Insert { row: sample_rows()[1] }));
    assert(serve(sample_stage(1), sample_inserts()[1]).unwrap().0 =~= sample_stage(2));
}

/// The database accepts the insert of sample row 2.
proof fn lemma_sample_insert_2()
    ensures
        serve(sample_stage(2), sample_inserts()[2]) == Some((sample_stage(3), Answer::Saved(sample_rows()[2]))),
{
    lemma_sample_names_differ();
    assert(sample_inserts()[2] == (Query::Insert { row: sample_rows()[2] }));
    assert(serve(sample_stage(2), sample_inserts()[2]).unwrap().0 =~= sample_stage(3));
}

/// The database accepts the insert of sample row 3.
proof fn lemma_sample_insert_3()
    ensures
        serve(sample_stage(3), sample_inserts()[3]) == Some((sample_stage(4), Answer::Saved(sample_rows()[3]))),
{
    lemma_sample_names_differ();
    assert(sample_inserts()[3] == (Query::Insert { row: sample_rows()[3] }));
    assert(sample_stage(3).collections[0].name == sample_stage(3).collections[0].name);
    assert(serve(sample_stage(3), sample_inserts()[3]).unwrap().0 =~= sample_stage(4));
}

/// The database accepts the insert of sample row 4.
proof fn lemma_sample_insert_4()
    ensures
        serve(sample_stage(4), sample_inserts()[4]) == Some((sample_stage(5), Answer::Saved(sample_rows()[4]))),
{
    lemma_sample_names_differ();
    assert(sample_inserts()[4] == (Query::Insert { row: sample_rows()[4] }));
    assert(sample_stage(4).collections[1].name == sample_stage(4).collections[1].name);
    assert(serve(sample_stage(4), sample_inserts()[4]).unwrap().0 =~= sample_stage(5));
}

/// The database accepts the insert of sample row 5.
proof fn lemma_sample_insert_5()
    ensures
        serve(sample_stage(5), sample_inserts()[5]) == Some((sample_stage(6), Answer::Saved(sample_rows()[5]))),
{
    lemma_sample_names_differ();
    assert(sample_inserts()[5] == (Query::Insert { row: sample_rows()[5] }));
    assert(sample_stage(5).collections[2].name == sample_stage(5).collections[2].name);
    assert(serve(sample_stage(5), sample_inserts()[5]).unwrap().0 =~= sample_stage(6));
}

/// The database accepts the insert of sample row 6.
proof fn lemma_sample_insert_6()
    ensures
        serve(sample_stage(6), sample_inserts()[6]) == Some((sample_stage(7), Answer::Saved(sample_rows()[6]))),
{
    lemma_sample_names_differ();
    assert(sample_inserts()[6] == (Query::Insert { row: sample_rows()[6] }));
    assert(sample_stage(6).notebooks[0].name == sample_stage(6).notebooks[0].name);
    assert(serve(sample_stage(6), sample_inserts()[6]).unwrap().0 =~= sample_stage(7));
}

/// The database accepts the insert of sample row 7.
proof fn lemma_sample_insert_7()
    ensures
        serve(sample_stage(7), sample_inserts()[7]) == Some((sample_stage(8), Answer::Saved(sample_rows()[7]))),
{
    lemma_sample_names_differ();
    assert(sample_inserts()[7] == (Query::Insert { row: sample_rows()[7] }));
    assert(sample_stage(7).notebooks[1].name == sample_stage(7).notebooks[1].name);
    assert(serve(sample_stage(7), sample_inserts()[7]).unwrap().0 =~= sample_stage(8));
}

/// The database accepts the insert of sample row 8.
proof fn lemma_sample_insert_8()
    ensures
        serve(sample_stage(8), sample_inserts()[8]) == Some((sample_stage(9), Answer::Saved(sample_rows()[8]))),
{
    lemma_sample_names_differ();
    assert(sample_inserts()[8] == (Query::Insert { row: sample_rows()[8] }));
    assert(sample_stage(8).notebooks[2].name == sample_stage(8).notebooks[2].name);
    assert(serve(sample_stage(8), sample_inserts()[8]).unwrap().0 =~= sample_stage(9));
}

/// The database accepts the insert of sample row 9.
proof fn lemma_sample_insert_9()
    ensures
        serve(sample_stage(9), sample_inserts()[9]) == Some((sample_stage(10), Answer::Saved(sample_rows()[9]))),
{
    lemma_sample_names_differ();
    assert(sample_inserts()[9] == (Query::Insert { row: sample_rows()[9] }));
    assert(serve(sample_stage(9), sample_inserts()[9]).unwrap().0 =~= sample_stage(10));
}

/// The database accepts the insert of sample row 10.
proof fn lemma_sample_insert_10()
    ensures
        serve(sample_stage(10), sample_inserts()[10]) == Some((sample_stage(11), Answer::Saved(sample_rows()[10]))),
{
    lemma_sample_names_differ();
    assert(sample_inserts()[10] == (Query::Insert { row: sample_rows()[10] }));
    assert(sample_stage(10).notes[0].name == sample_stage(10).notes[0].name);
    assert(tag_text(sample_stage(10).tags[0]) == "Important"@);
    assert(serve(sample_stage(10), sample_inserts()[10]).unwrap().0 =~= sample_stage(11));
}

/// The database accepts the insert of sample row 11.
proof fn lemma_sample_insert_11()
    ensures
        serve(sample_stage(11), sample_inserts()[11]) == Some((sample_stage(12), Answer::Saved(sample_rows()[11]))),
{
    lemma_sample_names_differ();
    assert(sample_inserts()[11] == (Query::Insert { row: sample_rows()[11] }));
    assert(sample_stage(11).notes[1].name == sample_stage(11).notes[1].name);
    assert(tag_text(sample_stage(11).tags[0]) == "Important"@);
    assert(serve(sample_stage(11), sample_inserts()[11]).unwrap().0 =~= sample_stage(12));
}

/// The database accepts the insert of sample row 12.
proof fn lemma_sample_insert_12()
    ensures
        serve(sample_stage(12), sample_inserts()[12]) == Some((sample_stage(13), Answer::Saved(sample_rows()[12]))),
{
    lemma_sample_names_differ();
    assert(sample_inserts()[12] == (Query::Insert { row: sample_rows()[12] }));
    assert(sample_stage(12).notes[2].name == sample_stage(12).notes[2].name);
    assert(tag_text(sample_stage(12).tags[0]) == "Important"@);
    assert(serve(sample_stage(12), sample_inserts()[12]).unwrap().0 =~= sample_stage(13));
}

/// The store after sending the requests `qs` in turn, stopping at the first
/// one that the database refuses, and whether it accepted them all.
pub open spec fn send_all(s: Store, qs: Seq<Query>) -> (Store, bool)
    decreases qs.len(),
{
    if qs.len() == 0 {
        (s, true)
    } else {
        match serve(s, qs[0]) {
            None => (s, false),
            Some((s2, _)) => send_all(s2, qs.drop_first()),
        }
    }
}

/// The outcome that running a script gives for what `send_all` gives: success
/// where every request was accepted, and otherwise the refusal.
pub open spec fn script_outcome(sent: (Store, bool)) -> (Store, Option<Result<(), Failure>>) {
    (sent.0, if sent.1 { Some(Ok(())) } else { None })
}

/// A script sends `q` and then `pending`, in turn, and stops at the first
/// request that the database refuses.
proof fn lemma_script_sends_all(s: Store, q: Query, pending: Seq<Query>, fuel: nat)
    requires
        fuel >= pending.len(),
    ensures
        run(
            |st: ScriptView, rep: Result<Answer, Failure>| script_step(st, rep),
            ScriptView { pending, finished: false },
            s,
            q,
            fuel,
        ) == script_outcome(send_all(s, seq![q] + pending)),
    decreases pending.len(),
{
    reveal_with_fuel(run, 2);
    reveal_with_fuel(send_all, 2);
    let all = seq![q] + pending;
    assert(all[0] == q);
    assert(all.drop_first() =~= pending);
    if serve(s, q) is Some {
        let s2 = serve(s, q).unwrap().0;
        lemma_script_insert(s, pending, q, fuel);
        assert(send_all(s, all) == send_all(s2, pending));
        if pending.len() > 0 {
            lemma_script_sends_all(s2, pending[0], pending.drop_first(), (fuel - 1) as nat);
            assert(seq![pending[0]] + pending.drop_first() =~= pending);
        } else {
            assert(send_all(s2, pending) == (s2, true));
        }
    } else {
        assert(send_all(s, all) == (s, false));
    }
}

/// Inserting the sample data set into any store sends its inserts in order
/// and stops at the first one the database refuses (a key already taken, or
/// a row it refers to missing): the rows inserted before it stay, that row
/// and every later one are not inserted, and the insertion fails; where the
/// database refuses none, it succeeds.
pub proof fn law_insert_sample_data_stops_at_refusal(s: Store)
    ensures
        run(
            |st: ScriptView, rep: Result<Answer, Failure>| script_step(st, rep),
            ScriptView { pending: sample_inserts().drop_first(), finished: false },
            s,
            sample_inserts()[0],
            12,
        ) == script_outcome(send_all(s, sample_inserts())),
{
    let q = sample_inserts();
    lemma_script_sends_all(s, q[0], q.drop_first(), 12);
    assert(seq![q[0]] + q.drop_first() =~= q);
}

/// Whether `s2` still holds every row of `s`, each table of `s` being the
/// start of the same table of `s2`.
pub open spec fn keeps_rows(s: Store, s2: Store) -> bool {
    &&& s.collections.is_prefix_of(s2.collections)
    &&& s.notebooks.is_prefix_of(s2.notebooks)
    &&& s.notes.is_prefix_of(s2.notes)
    &&& s.tags.is_prefix_of(s2.tags)
    &&& s.note_tags.is_prefix_of(s2.note_tags)
}

/// Keeping the rows is transitive.
proof fn lemma_keeps_rows_trans(s: Store, s1: Store, s2: Store)
    requires
        keeps_rows(s, s1),
        keeps_rows(s1, s2),
    ensures
        keeps_rows(s, s2),
{
    assert(s.collections =~= s2.collections.subrange(0, s.collections.len() as int)) by {
        assert(s.collections =~= s1.collections.subrange(0, s.collections.len() as int));
        assert(s1.collections =~= s2.collections.subrange(0, s1.collections.len() as int));
    }
    assert(s.notebooks =~= s2.notebooks.subrange(0, s.notebooks.len() as int)) by {
        assert(s.notebooks =~= s1.notebooks.subrange(0, s.notebooks.len() as int));
        assert(s1.notebooks =~= s2.notebooks.subrange(0, s1.notebooks.len() as int));
    }
    assert(s.notes =~= s2.notes.subrange(0, s.notes.len() as int)) by {
        assert(s.notes =~= s1.notes.subrange(0, s.notes.len() as int));
        assert(s1.notes =~= s2.notes.subrange(0, s1.notes.len() as int));
    }
    assert(s.tags =~= s2.tags.subrange(0, s.tags.len() as int)) by {
        assert(s.tags =~= s1.tags.subrange(0, s.tags.len() as int));
        assert(s1.tags =~= s2.tags.subrange(0, s1.tags.len() as int));
    }
    assert(s.note_tags =~= s2.note_tags.subrange(0, s.note_tags.len() as int)) by {
        assert(s.note_tags =~= s1.note_tags.subrange(0, s.note_tags.len() as int));
        assert(s1.note_tags =~= s2.note_tags.subrange(0, s1.note_tags.len() as int));
    }
}

/// An insert the database accepts keeps every row it had.
proof fn lemma_insert_keeps_rows(s: Store, row: RowView)
    requires
        serve(s, Query::Insert { row }) is Some,
    ensures
        keeps_rows(s, serve(s, Query::Insert { row }).unwrap().0),
{
    let s2 = serve(s, Query::Insert { row }).unwrap().0;
    assert(s.collections =~= s2.collections.subrange(0, s.collections.len() as int));
    assert(s.notebooks =~= s2.notebooks.subrange(0, s.notebooks.len() as int));
    assert(s.notes =~= s2.notes.subrange(0, s.notes.len() as int));
    assert(s.tags =~= s2.tags.subrange(0, s.tags.len() as int));
    assert(s.note_tags =~= s2.note_tags.subrange(0, s.note_tags.len() as int));
}

/// Sending inserts in turn keeps every row the store had; where one is
/// refused, the store is what the inserts before it made of it, and the
/// database refuses that insert there.
proof fn lemma_send_inserts(s: Store, qs: Seq<Query>)
    requires
        forall|i: int| 0 <= i < qs.len() ==> #[trigger] qs[i] is Insert,
    ensures
        keeps_rows(s, send_all(s, qs).0),
        !send_all(s, qs).1 ==> exists|k: int|
            0 <= k < qs.len() && #[trigger] send_all(s, qs.take(k)) == (send_all(s, qs).0, true) && serve(
                send_all(s, qs).0,
                qs[k],
            ) is None,
    decreases qs.len(),
{
    let s2 = send_all(s, qs).0;
    if qs.len() == 0 {
        assert(keeps_rows(s, s)) by {
            lemma_insert_keeps_rows_refl(s);
        }
    } else {
        assert(qs[0] is Insert);
        if serve(s, qs[0]) is None {
            assert(keeps_rows(s, s)) by {
                lemma_insert_keeps_rows_refl(s);
            }
            assert(qs.take(0) =~= Seq::<Query>::empty());
            assert(send_all(s, qs.take(0)) == (s, true));
        } else {
            let s1 = serve(s, qs[0]).unwrap().0;
            let rest = qs.drop_first();
            assert forall|i: int| 0 <= i < rest.len() implies #[trigger] rest[i] is Insert by {
                assert(rest[i] == qs[i + 1]);
            }
            lemma_insert_keeps_rows(s, qs[0]->Insert_row);
            lemma_send_inserts(s1, rest);
            lemma_keeps_rows_trans(s, s1, s2);
            if !send_all(s, qs).1 {
                let k = choose|k: int|
                    0 <= k < rest.len() && #[trigger] send_all(s1, rest.take(k)) == (s2, true) && serve(s2, rest[k]) is None;
                let t = qs.take(k + 1);
                assert(t[0] == qs[0]);
                assert(t.drop_first() =~= rest.take(k));
                assert(send_all(s, t) == send_all(s1, rest.take(k)));
                assert(rest[k] == qs[k + 1]);
            }
        }
    }
}

/// Every store keeps its own rows.
proof fn lemma_insert_keeps_rows_refl(s: Store)
    ensures
        keeps_rows(s, s),
{
    assert(s.collections =~= s.collections.subrange(0, s.collections.len() as int));
    assert(s.notebooks =~= s.notebooks.subrange(0, s.notebooks.len() as int));
    assert(s.notes =~= s.notes.subrange(0, s.notes.len() as int));
    assert(s.tags =~= s.tags.subrange(0, s.tags.len() as int));
    assert(s.note_tags =~= s.note_tags.subrange(0, s.note_tags.len() as int));
}

/// Inserting the sample data set where a row clashes: every row the store
/// held stays, and where the database refuses one of the inserts (a key
/// already taken, or a row it refers to missing), the store afterwards is
/// exactly the store with the sample rows before it inserted, that insert is
/// refused there, and no later sample row is inserted; the insertion then
/// fails.
pub proof fn law_insert_sample_data_clash(s: Store)
    ensures
        ({
            let (s2, ok) = send_all(s, sample_inserts());
            &&& keeps_rows(s, s2)
            &&& !ok ==> exists|k: int|
                0 <= k < 13 && #[trigger] send_all(s, sample_inserts().take(k)) == (s2, true) && serve(
                    s2,
                    sample_inserts()[k],
                ) is None
            &&& run(
                |st: ScriptView, rep: Result<Answer, Failure>| script_step(st, rep),
                ScriptView { pending: sample_inserts().drop_first(), finished: false },
                s,
                sample_inserts()[0],
                12,
            ) == script_outcome((s2, ok))
        }),
{
    let q = sample_inserts();
    assert forall|i: int| 0 <= i < q.len() implies #[trigger] q[i] is Insert by {}
    lemma_send_inserts(s, q);
    law_insert_sample_data_stops_at_refusal(s);
}

/// Inserting the sample data set into an empty store: the database accepts
/// every insert, since each row comes after the rows it refers to and no two
/// rows share a key, and afterwards the store holds exactly the sample rows.
pub proof fn law_insert_sample_data()
    ensures
        run(
            |st: ScriptView, rep: Result<Answer, Failure>| script_step(st, rep),
            ScriptView { pending: sample_inserts().drop_first(), finished: false },
            empty_store(),
            sample_inserts()[0],
            12,
        ) == (sample_store(), Some(Ok::<(), Failure>(()))),
{
    let q = sample_inserts();
    assert(sample_stage(0) =~= empty_store());
    assert(q.drop_first() =~= q.subrange(1, 13));
    assert(q.subrange(1, 13).drop_first() =~= q.subrange(2, 13));
    assert(q.subrange(2, 13).drop_first() =~= q.subrange(3, 13));
    assert(q.subrange(3, 13).drop_first() =~= q.subrange(4, 13));
    assert(q.subrange(4, 13).drop_first() =~= q.subrange(5, 13));
    assert(q.subrange(5, 13).drop_first() =~= q.subrange(6, 13));
    assert(q.subrange(6, 13).drop_first() =~= q.subrange(7, 13));
    assert(q.subrange(7, 13).drop_first() =~= q.subrange(8, 13));
    assert(q.subrange(8, 13).drop_first() =~= q.subrange(9, 13));
    assert(q.subrange(9, 13).drop_first() =~= q.subrange(10, 13));
    assert(q.subrange(10, 13).drop_first() =~= q.subrange(11, 13));
    assert(q.subrange(11, 13).drop_first() =~= q.subrange(12, 13));
    assert(q.subrange(12, 13).drop_first() =~= q.subrange(13, 13));
    lemma_sample_insert_12();
    lemma_script_insert(sample_stage(12), q.subrange(13, 13), q[12], 0);
    lemma_sample_insert_11();
    lemma_script_insert(sample_stage(11), q.subrange(12, 13), q[11], 1);
    lemma_sample_insert_10();
    lemma_script_insert(sample_stage(10), q.subrange(11, 13), q[10], 2);
    lemma_sample_insert_9();
    lemma_script_insert(sample_stage(9), q.subrange(10, 13), q[9], 3);
    lemma_sample_insert_8();
    lemma_script_insert(sample_stage(8), q.subrange(9, 13), q[8], 4);
    lemma_sample_insert_7();
    lemma_script_insert(sample_stage(7), q.subrange(8, 13), q[7], 5);
    lemma_sample_insert_6();
    lemma_script_insert(sample_stage(6), q.subrange(7, 13), q[6], 6);
    lemma_sample_insert_5();
    lemma_script_insert(sample_stage(5), q.subrange(6, 13), q[5], 7);
    lemma_sample_insert_4();
    lemma_script_insert(sample_stage(4), q.subrange(5, 13), q[4], 8);
    lemma_sample_insert_3();
    lemma_script_insert(sample_stage(3), q.subrange(4, 13), q[3], 9);
    lemma_sample_insert_2();
    lemma_script_insert(sample_stage(2), q.subrange(3, 13), q[2], 10);
    lemma_sample_insert_1();
    lemma_script_insert(sample_stage(1), q.subrange(2, 13), q[1], 11);
    lemma_sample_insert_0();
    lemma_script_insert(sample_stage(0), q.subrange(1, 13), q[0], 12);
}

/// The tags that `links` name and `tags` holds, in the order of the links.
pub open spec fn found_tags(tags: Seq<Tag>, links: Seq<NoteTagRow>) -> Seq<Tag>
    decreases links.len(),
{
    if links.len() == 0 {
        Seq::empty()
    } else {
        let before = found_tags(tags, links.drop_last());
        match find_tag(tags, links.last().tag_name) {
            Some(t) => before.push(t),
            None => before,
        }
    }
}

/// The name of the collection of the notebook named `notebook_name`, or
/// empty text where no such notebook is stored.
pub open spec fn collection_of(s: Store, notebook_name: Seq<char>) -> Seq<char> {
    match find_notebook(s.notebooks, notebook_name) {
        Some(nb) => nb.collection_name,
        None => Seq::empty(),
    }
}

/// What looking up the record of `kind` named `name` in `s` gives: a
/// collection or tag as stored, a notebook with the summaries of its notes, a
/// note with the tags its links name and the collection of its notebook.
pub open spec fn looked_up(s: Store, kind: EntityKind, name: Seq<char>) -> Option<ByNameView> {
    match stored(s, kind, name) {
        None => None,
        Some(RowView::Collection(c)) => Some(ByNameView::Collection(c)),
        Some(RowView::Tag(t)) => Some(ByNameView::Tag(t)),
        Some(RowView::Notebook(nb)) => Some(ByNameView::Notebook(notebook_detail(nb, notes_in(s.notes, nb.name)))),
        Some(RowView::Note(n)) => Some(
            ByNameView::Note(
                note_detail(n, found_tags(s.tags, links_of(s.note_tags, n.name)), collection_of(s, n.notebook_name)),
            ),
        ),
        Some(RowView::NoteTag(_)) => None,
    }
}

/// The tags found for `links`: one for each link, the stored tag that its
/// tag text names; each distinct where the links name distinct tags.
proof fn lemma_found_tags(tags: Seq<Tag>, links: Seq<NoteTagRow>)
    requires
        forall|j: int| 0 <= j < links.len() ==> has_tag(tags, #[trigger] links[j].tag_name),
    ensures
        forall|t: Tag|
            #[trigger] found_tags(tags, links).contains(t) <==> tags.contains(t) && exists|j: int|
                0 <= j < links.len() && #[trigger] links[j].tag_name == tag_text(t),
        (forall|a: int, b: int|
            0 <= a < links.len() && 0 <= b < links.len() && #[trigger] links[a].tag_name == #[trigger] links[b].tag_name
                ==> a == b) ==> found_tags(tags, links).no_duplicates(),
    decreases links.len(),
{
    if links.len() > 0 {
        let d = links.drop_last();
        let last = links.last();
        assert(last == links[links.len() - 1]);
        assert forall|j: int| 0 <= j < d.len() implies has_tag(tags, #[trigger] d[j].tag_name) by {
            assert(d[j] == links[j]);
        }
        lemma_found_tags(tags, d);
        let fd = found_tags(tags, d);
        assert(has_tag(tags, last.tag_name));
        let i = choose|i: int| 0 <= i < tags.len() && tag_text(#[trigger] tags[i]) == last.tag_name;
        let tl = tags[i];
        assert(find_tag(tags, last.tag_name) == Some(tl));
        let f = fd.push(tl);
        assert(found_tags(tags, links) == f);
        assert forall|t: Tag|
            #[trigger] f.contains(t) <==> tags.contains(t) && exists|j: int|
                0 <= j < links.len() && #[trigger] links[j].tag_name == tag_text(t) by {
            if f.contains(t) {
                let m = choose|m: int| 0 <= m < f.len() && f[m] == t;
                if m < fd.len() {
                    assert(fd[m] == f[m]);
                    assert(fd.contains(t));
                    let j = choose|j: int| 0 <= j < d.len() && #[trigger] d[j].tag_name == tag_text(t);
                    assert(links[j] == d[j]);
                } else {
                    assert(t == tl);
                    assert(links[links.len() - 1].tag_name == tag_text(t));
                }
            }
            if tags.contains(t) && exists|j: int| 0 <= j < links.len() && #[trigger] links[j].tag_name == tag_text(t) {
                let j = choose|j: int| 0 <= j < links.len() && #[trigger] links[j].tag_name == tag_text(t);
                if j < d.len() {
                    assert(d[j] == links[j]);
                    assert(fd.contains(t));
                    let m = choose|m: int| 0 <= m < fd.len() && fd[m] == t;
                    assert(f[m] == fd[m]);
                } else {
                    lemma_tag_text_injective(t, tl);
                    assert(f[f.len() - 1] == tl);
                }
            }
        }
        if forall|a: int, b: int|
            0 <= a < links.len() && 0 <= b < links.len() && #[trigger] links[a].tag_name == #[trigger] links[b].tag_name
                ==> a == b {
            assert forall|a: int, b: int|
                0 <= a < d.len() && 0 <= b < d.len() && #[trigger] d[a].tag_name == #[trigger] d[b].tag_name implies a
                == b by {
                assert(d[a] == links[a]);
                assert(d[b] == links[b]);
            }
            assert(fd.no_duplicates());
            assert(!fd.contains(tl)) by {
                if fd.contains(tl) {
                    let j = choose|j: int| 0 <= j < d.len() && #[trigger] d[j].tag_name == tag_text(tl);
                    assert(links[j] == d[j]);
                    assert(links[links.len() - 1].tag_name == tag_text(tl));
                }
            }
            assert forall|a: int, b: int| 0 <= a < f.len() && 0 <= b < f.len() && a != b implies f[a] != f[b] by {
                if a < fd.len() && b < fd.len() {
                    assert(f[a] == fd[a] && f[b] == fd[b]);
                } else if a < fd.len() {
                    assert(f[a] == fd[a]);
                    assert(fd.contains(fd[a]));
                } else if b < fd.len() {
                    assert(f[b] == fd[b]);
                    assert(fd.contains(fd[b]));
                }
            }
        }
    }
}

/// The tags that looking a note up gives are exactly the stored tags that
/// the note is linked to, each of them once.
pub proof fn law_note_tags_are_its_links(s: Store, name: Seq<char>)
    requires
        well_formed(s),
    ensures
        ({
            let tags = found_tags(s.tags, links_of(s.note_tags, name));
            &&& forall|t: Tag| #[trigger] tags.contains(t) <==> s.tags.contains(t) && has_link(s.note_tags, name, tag_text(t))
            &&& tags.no_duplicates()
        }),
{
    reveal(well_formed);
    broadcast use vstd::seq_lib::group_filter_ensures, Seq::lemma_filter_contains_rev;

    let links = links_of(s.note_tags, name);
    assert forall|j: int| 0 <= j < links.len() implies has_tag(s.tags, #[trigger] links[j].tag_name) by {
        assert(links.contains(links[j]));
        assert(s.note_tags.contains(links[j]));
        let i = choose|i: int| 0 <= i < s.note_tags.len() && s.note_tags[i] == links[j];
        assert(has_note(s.notes, s.note_tags[i].note_name));
    }
    lemma_found_tags(s.tags, links);
    lemma_filter_unique(s.note_tags, link_of(name), |l: NoteTagRow| l);
    assert forall|a: int, b: int|
        0 <= a < links.len() && 0 <= b < links.len() && #[trigger] links[a].tag_name == #[trigger] links[b].tag_name
            implies a == b by {
        assert(link_of(name)(links[a]));
        assert(link_of(name)(links[b]));
        assert(links[a] == links[b]);
    }
    assert forall|t: Tag|
        (exists|j: int| 0 <= j < links.len() && #[trigger] links[j].tag_name == tag_text(t)) <==> has_link(
            s.note_tags,
            name,
            tag_text(t),
        ) by {
        if exists|j: int| 0 <= j < links.len() && #[trigger] links[j].tag_name == tag_text(t) {
            let j = choose|j: int| 0 <= j < links.len() && #[trigger] links[j].tag_name == tag_text(t);
            assert(link_of(name)(links[j]));
            assert(links.contains(links[j]));
            let i = choose|i: int| 0 <= i < s.note_tags.len() && s.note_tags[i] == links[j];
            assert(s.note_tags[i].note_name == name && s.note_tags[i].tag_name == tag_text(t));
        }
        if has_link(s.note_tags, name, tag_text(t)) {
            let i = choose|i: int|
                0 <= i < s.note_tags.len() && #[trigger] s.note_tags[i].note_name == name && s.note_tags[i].tag_name
                    == tag_text(t);
            assert(link_of(name)(s.note_tags[i]));
            assert(links.contains(s.note_tags[i]));
            let j = choose|j: int| 0 <= j < links.len() && links[j] == s.note_tags[i];
            assert(links[j].tag_name == tag_text(t));
        }
    }
}

/// The loop that looks up the tags of a note's links, from the link at
/// `next` on.
proof fn lemma_link_loop(s: Store, note: NoteRow, links: Seq<NoteTagRow>, next: int, fuel: nat)
    requires
        0 <= next <= links.len(),
        fuel >= links.len() - next,
    ensures
        ({
            let (st, nx) = by_name_next_link(note, links, next, found_tags(s.tags, links.take(next)));
            run(|st: ByNameStage, rep: Result<Answer, Failure>| by_name_step(st, rep), st, s, nx->Ask_0, fuel) == (
                s,
                Some(
                    Ok::<Option<ByNameView>, Failure>(
                        Some(ByNameView::Note(note_detail(note, found_tags(s.tags, links), collection_of(s, note.notebook_name)))),
                    ),
                ),
            )
        }),
    decreases links.len() - next,
{
    reveal_with_fuel(run, 2);
    if next < links.len() {
        assert(links.take(next + 1).drop_last() =~= links.take(next));
        assert(links.take(next + 1).last() == links[next]);
        lemma_link_loop(s, note, links, next + 1, (fuel - 1) as nat);
    } else {
        assert(links.take(next) =~= links);
    }
}

/// Looking a record up by its kind and name gives what the store holds
/// under that name, with what belongs to it, and changes nothing.
pub proof fn law_get_by_name(s: Store, kind: EntityKind, name: Seq<char>)
    ensures
        ({
            let fuel = 2 + links_of(s.note_tags, name).len();
            run(
                |st: ByNameStage, rep: Result<Answer, Failure>| by_name_step(st, rep),
                ByNameStage::Lookup { kind },
                s,
                Query::FindOne { kind, key: name },
                fuel,
            ) == (s, Some(Ok::<Option<ByNameView>, Failure>(looked_up(s, kind, name))))
        }),
{
    reveal_with_fuel(run, 3);
    if let Some(RowView::Note(n)) = stored(s, kind, name) {
        assert(n.name == name);
        let links = links_of(s.note_tags, name);
        assert(links.take(0) =~= Seq::<NoteTagRow>::empty());
        lemma_link_loop(s, n, links, 0, links.len());
    }
}

/// Looking a notebook up lists every note stored in it: the detail carries
/// the notebook's name, and one summary for each note whose notebook is that
/// notebook, in the order of the table, with that note's name and topic; so
/// each such note appears, and no other.
pub proof fn law_notebook_lists_its_notes(s: Store, name: Seq<char>)
    requires
        has_notebook(s.notebooks, name),
    ensures
        ({
            let r = run(
                |st: ByNameStage, rep: Result<Answer, Failure>| by_name_step(st, rep),
                ByNameStage::Lookup { kind: EntityKind::Notebook },
                s,
                Query::FindOne { kind: EntityKind::Notebook, key: name },
                2 + links_of(s.note_tags, name).len(),
            ).1;
            let in_it = s.notes.filter(|n: NoteRow| n.notebook_name == name);
            &&& r matches Some(Ok(Some(ByNameView::Notebook(d))))
            &&& r matches Some(Ok(Some(ByNameView::Notebook(d)))) ==> {
                &&& d.name == name
                &&& d.notes.len() == in_it.len()
                &&& forall|i: int|
                    0 <= i < in_it.len() ==> (#[trigger] d.notes[i]).name == in_it[i].name && d.notes[i].topic
                        == in_it[i].topic && d.notes[i].notebook_name == name
                &&& forall|j: int|
                    0 <= j < s.notes.len() && #[trigger] s.notes[j].notebook_name == name ==> exists|i: int|
                        0 <= i < d.notes.len() && #[trigger] d.notes[i].name == s.notes[j].name
            }
        }),
{
    broadcast use vstd::seq_lib::group_filter_ensures;

    law_get_by_name(s, EntityKind::Notebook, name);
    let in_it = s.notes.filter(|n: NoteRow| n.notebook_name == name);
    assert(notes_in(s.notes, name) == in_it);
    let nb = find_notebook(s.notebooks, name).unwrap();
    assert(nb.name == name);
    let d = notebook_detail(nb, notes_in(s.notes, name));
    assert forall|j: int| 0 <= j < s.notes.len() && #[trigger] s.notes[j].notebook_name == name implies exists|i: int|
        0 <= i < d.notes.len() && #[trigger] d.notes[i].name == s.notes[j].name by {
        assert(in_it.contains(s.notes[j]));
        let i = choose|i: int| 0 <= i < in_it.len() && in_it[i] == s.notes[j];
        assert(d.notes[i].name == in_it[i].name);
    }
}

/// `collections --update` (with no `--all`, `--show` or `--new` before it)
/// updates the collection named by `--update`, giving it the `--name` and
/// `--description` given, each left alone where not given; `collections
/// --new` with a name and a description creates that collection.
pub proof fn law_plan_collections(a: crate::cli::CollectionArgs)
    ensures
        a.all ==> crate::cli::command_plan(crate::cli::Commands::Collections(a)) == Ok::<crate::cli::PlanView, Seq<char>>(
            crate::cli::PlanView::All(EntityKind::Collection),
        ),
        !a.all && a.show is Some ==> crate::cli::command_plan(crate::cli::Commands::Collections(a)) == Ok::<
            crate::cli::PlanView,
            Seq<char>,
        >(crate::cli::PlanView::Show(EntityKind::Collection, a.show->0@)),
        !a.all && a.show is None && !a.new && a.update is None && a.delete is Some ==> crate::cli::command_plan(
            crate::cli::Commands::Collections(a),
        ) == Ok::<crate::cli::PlanView, Seq<char>>(crate::cli::PlanView::Delete(EntityKind::Collection, a.delete->0@)),
        !a.all && a.show is None && !a.new && a.update is Some ==> crate::cli::command_plan(
            crate::cli::Commands::Collections(a),
        ) == Ok::<crate::cli::PlanView, Seq<char>>(
            crate::cli::PlanView::Update(
                a.update->0@,
                UpdateView::Collection { name: a.name.deep_view(), description: a.description.deep_view() },
            ),
        ),
        !a.all && a.show is None && a.new && a.name is Some && a.description is Some ==> crate::cli::command_plan(
            crate::cli::Commands::Collections(a),
        ) == Ok::<crate::cli::PlanView, Seq<char>>(
            crate::cli::PlanView::Create(
                RowView::Collection(CollectionRow { name: a.name->0@, description: a.description->0@ }),
            ),
        ),
{
}

/// `notebooks --update` (with no `--all`, `--show` or `--new` before it)
/// updates the notebook named by `--update`, giving it the `--name` and the
/// `--collection` given, and the `--description` as JSON, each left alone
/// where not given; `notebooks --new` with all three creates that notebook
/// in that collection.
pub proof fn law_plan_notebooks(a: crate::cli::NotebookArgs)
    ensures
        a.all ==> crate::cli::command_plan(crate::cli::Commands::Notebooks(a)) == Ok::<crate::cli::PlanView, Seq<char>>(
            crate::cli::PlanView::All(EntityKind::Notebook),
        ),
        !a.all && a.show is Some ==> crate::cli::command_plan(crate::cli::Commands::Notebooks(a)) == Ok::<
            crate::cli::PlanView,
            Seq<char>,
        >(crate::cli::PlanView::Show(EntityKind::Notebook, a.show->0@)),
        !a.all && a.show is None && !a.new && a.update is None && a.delete is Some ==> crate::cli::command_plan(
            crate::cli::Commands::Notebooks(a),
        ) == Ok::<crate::cli::PlanView, Seq<char>>(crate::cli::PlanView::Delete(EntityKind::Notebook, a.delete->0@)),
        !a.all && a.show is None && !a.new && a.update is Some ==> crate::cli::command_plan(
            crate::cli::Commands::Notebooks(a),
        ) == Ok::<crate::cli::PlanView, Seq<char>>(
            crate::cli::PlanView::Update(
                a.update->0@,
                UpdateView::Notebook {
                    name: a.name.deep_view(),
                    description: match a.description {
                        Some(d) => Some(crate::json::json_or_text_spec(d@)),
                        None => None,
                    },
                    collection_name: a.collection.deep_view(),
                },
            ),
        ),
        !a.all && a.show is None && a.new && a.name is Some && a.description is Some && a.collection is Some
            ==> crate::cli::command_plan(crate::cli::Commands::Notebooks(a)) == Ok::<crate::cli::PlanView, Seq<char>>(
            crate::cli::PlanView::Create(
                RowView::Notebook(
                    NotebookRow {
                        name: a.name->0@,
                        description: crate::json::json_or_text_spec(a.description->0@),
                        collection_name: a.collection->0@,
                    },
                ),
            ),
        ),
{
}

/// `notes --update` without `--notebook` (and no `--all`, `--show` or
/// `--new` before it) updates the note named by `--update`, giving it the
/// `--name` and `--topic` given and the `--content` as JSON, each left alone
/// where not given, and its tags alone; `notes --new` with a name, a topic,
/// a content and a notebook creates that note in that notebook.
pub proof fn law_plan_notes(a: crate::cli::NoteArgs)
    ensures
        a.all ==> crate::cli::command_plan(crate::cli::Commands::Notes(a)) == Ok::<crate::cli::PlanView, Seq<char>>(
            crate::cli::PlanView::All(EntityKind::Note),
        ),
        !a.all && a.show is Some ==> crate::cli::command_plan(crate::cli::Commands::Notes(a)) == Ok::<
            crate::cli::PlanView,
            Seq<char>,
        >(crate::cli::PlanView::Show(EntityKind::Note, a.show->0@)),
        !a.all && a.show is None && !a.new && a.update is None && a.delete is Some ==> crate::cli::command_plan(
            crate::cli::Commands::Notes(a),
        ) == Ok::<crate::cli::PlanView, Seq<char>>(crate::cli::PlanView::Delete(EntityKind::Note, a.delete->0@)),
        !a.all && a.show is None && !a.new && a.update is Some && a.notebook is None ==> crate::cli::command_plan(
            crate::cli::Commands::Notes(a),
        ) == Ok::<crate::cli::PlanView, Seq<char>>(
            crate::cli::PlanView::Update(
                a.update->0@,
                UpdateView::Note {
                    name: a.name.deep_view(),
                    topic: a.topic.deep_view(),
                    content: match a.content {
                        Some(c) => Some(crate::json::json_or_text_spec(c@)),
                        None => None,
                    },
                    tags: None,
                },
            ),
        ),
        !a.all && a.show is None && a.new && a.name is Some && a.topic is Some && a.content is Some && a.notebook is Some
            ==> crate::cli::command_plan(crate::cli::Commands::Notes(a)) == Ok::<crate::cli::PlanView, Seq<char>>(
            crate::cli::PlanView::Create(
                RowView::Note(
                    NoteRow {
                        name: a.name->0@,
                        topic: a.topic->0@,
                        content: crate::json::json_or_text_spec(a.content->0@),
                        notebook_name: a.notebook->0@,
                    },
                ),
            ),
        ),
{
}

/// A description or content that parses as JSON is kept as the JSON value it
/// parses as, in compact form, whatever that value is (an object, an array,
/// a string, a number, ...); only text that does not parse is wrapped as an
/// object whose `text` member is the text as a JSON string.
pub proof fn law_json_or_text(input: Seq<char>)
    ensures
        json_normal(input) matches Some(v) ==> crate::json::json_or_text_spec(input) == v,
        json_normal(input) is None ==> crate::json::json_or_text_spec(input) == "{\"text\":"@
            + crate::json::json_string(input) + "}"@,
{
}

/// Looking a note up gives the note as stored, field by field, the tags it
/// is linked to (see `law_note_tags_are_its_links`), and the collection of
/// its notebook, or empty text where its notebook is not stored.
pub proof fn law_note_lookup(s: Store, name: Seq<char>)
    requires
        has_note(s.notes, name),
    ensures
        ({
            let r = run(
                |st: ByNameStage, rep: Result<Answer, Failure>| by_name_step(st, rep),
                ByNameStage::Lookup { kind: EntityKind::Note },
                s,
                Query::FindOne { kind: EntityKind::Note, key: name },
                2 + links_of(s.note_tags, name).len(),
            ).1;
            let n = find_note(s.notes, name).unwrap();
            &&& r matches Some(Ok(Some(ByNameView::Note(d))))
            &&& r matches Some(Ok(Some(ByNameView::Note(d)))) ==> {
                &&& d.name == name
                &&& d.topic == n.topic
                &&& d.content == n.content
                &&& d.notebook_name == n.notebook_name
                &&& d.collection_name == if has_notebook(s.notebooks, n.notebook_name) {
                    find_notebook(s.notebooks, n.notebook_name).unwrap().collection_name
                } else {
                    Seq::<char>::empty()
                }
                &&& d.tags == found_tags(s.tags, links_of(s.note_tags, name))
            }
        }),
{
    law_get_by_name(s, EntityKind::Note, name);
}

/// Listing all notes gives one summary for each stored note, in the order
/// of the table, with that note's name, topic and notebook.
pub proof fn law_list_notes(s: Store)
    ensures
        ({
            let r = get_all_result(EntityKind::Note, Ok(serve(s, Query::FindAll { kind: EntityKind::Note }).unwrap().1));
            &&& r matches Ok(AllView::Notes(v))
            &&& r matches Ok(AllView::Notes(v)) ==> {
                &&& v.len() == s.notes.len()
                &&& forall|i: int|
                    0 <= i < s.notes.len() ==> (#[trigger] v[i]).name == s.notes[i].name && v[i].topic
                        == s.notes[i].topic && v[i].notebook_name == s.notes[i].notebook_name
            }
        }),
{
    law_get_all(s, EntityKind::Note);
}

/// What an update makes of a record: each column that the data gives is
/// set to the given value, and every other column keeps its value; a note
/// keeps its notebook.
pub proof fn law_update_sets_given_columns(row: RowView, data: UpdateView)
    ensures
        row matches RowView::Collection(c) ==> (data matches UpdateView::Collection { name, description } ==> {
            let r = update_applied(row, data);
            &&& r matches RowView::Collection(u)
            &&& r matches RowView::Collection(u) ==> {
                &&& (name matches Some(v) ==> u.name == v) && (name is None ==> u.name == c.name)
                &&& (description matches Some(v) ==> u.description == v) && (description is None ==> u.description
                    == c.description)
            }
        }),
        row matches RowView::Notebook(nb) ==> (data matches UpdateView::Notebook { name, description, collection_name }
            ==> {
            let r = update_applied(row, data);
            &&& r matches RowView::Notebook(u)
            &&& r matches RowView::Notebook(u) ==> {
                &&& (name matches Some(v) ==> u.name == v) && (name is None ==> u.name == nb.name)
                &&& (description matches Some(v) ==> u.description == v) && (description is None ==> u.description
                    == nb.description)
                &&& (collection_name matches Some(v) ==> u.collection_name == v) && (collection_name is None
                    ==> u.collection_name == nb.collection_name)
            }
        }),
        row matches RowView::Note(n) ==> (data matches UpdateView::Note { name, topic, content, tags } ==> {
            let r = update_applied(row, data);
            &&& r matches RowView::Note(u)
            &&& r matches RowView::Note(u) ==> {
                &&& (name matches Some(v) ==> u.name == v) && (name is None ==> u.name == n.name)
                &&& (topic matches Some(v) ==> u.topic == v) && (topic is None ==> u.topic == n.topic)
                &&& (content matches Some(v) ==> u.content == v) && (content is None ==> u.content == n.content)
                &&& u.notebook_name == n.notebook_name
            }
        }),
{
}

/// `tags --new` with the text of a tag creates that tag; with a text that
/// names no tag it is refused as unknown; `--all`, `--show` and `--delete`
/// list, show and delete tags.
pub proof fn law_plan_tags(a: crate::cli::TagArgs)
    ensures
        a.all ==> crate::cli::command_plan(crate::cli::Commands::Tags(a)) == Ok::<crate::cli::PlanView, Seq<char>>(
            crate::cli::PlanView::All(EntityKind::Tag),
        ),
        !a.all && a.show is Some ==> crate::cli::command_plan(crate::cli::Commands::Tags(a)) == Ok::<
            crate::cli::PlanView,
            Seq<char>,
        >(crate::cli::PlanView::Show(EntityKind::Tag, a.show->0@)),
        !a.all && a.show is None && a.new is Some ==> forall|t: Tag|
            tag_text(t) == a.new->0@ ==> crate::cli::command_plan(crate::cli::Commands::Tags(a)) == Ok::<
                crate::cli::PlanView,
                Seq<char>,
            >(crate::cli::PlanView::Create(RowView::Tag(t))),
        !a.all && a.show is None && a.new is Some && (forall|t: Tag| tag_text(t) != a.new->0@)
            ==> crate::cli::command_plan(crate::cli::Commands::Tags(a)) == Ok::<crate::cli::PlanView, Seq<char>>(
            crate::cli::PlanView::UnknownTag(a.new->0@),
        ),
        !a.all && a.show is None && a.new is None && a.delete is Some ==> crate::cli::command_plan(
            crate::cli::Commands::Tags(a),
        ) == Ok::<crate::cli::PlanView, Seq<char>>(crate::cli::PlanView::Delete(EntityKind::Tag, a.delete->0@)),
{
    if !a.all && a.show is None && a.new is Some {
        assert forall|t: Tag| tag_text(t) == a.new->0@ implies crate::cli::command_plan(
            crate::cli::Commands::Tags(a),
        ) == Ok::<crate::cli::PlanView, Seq<char>>(crate::cli::PlanView::Create(RowView::Tag(t))) by {
            let c = choose|c: Tag| tag_text(c) == a.new->0@;
            lemma_tag_text_injective(t, c);
        }
    }
}

} // verus!
