//! Facts about the tables of the model: how lookups change when a row is
//! appended, replaced or removed, and that every request the database
//! accepts keeps the store well formed.
use crate::crud::query::{Answer, Failure, Next, Query, RowView, Table};
use crate::models::collection::CollectionRow;
use crate::models::note::NoteRow;
use crate::models::note_tag::NoteTagRow;
use crate::models::notebook::NotebookRow;
use crate::models::taxonomy::{Tag, lemma_tag_text_injective, tag_text};
use crate::store::{
    Store, collection_not_named, collection_used, note_used, notebook_used, find_collection, find_note, find_notebook, find_tag, has_collection, has_link,
    has_note, has_notebook, has_tag, link_not_of, link_other_than, links_of, note_not_named, notebook_not_named,
    notes_in, run, serve, tag_other_than, well_formed, without_collection, without_note, without_notebook,
    without_tag,
};
use vstd::prelude::*;

verus! {

/// Without the collection named `name`, a lookup of any other name finds
/// what it found before.
pub(crate) proof fn lemma_without_collection(rows: Seq<CollectionRow>, name: Seq<char>, k: Seq<char>)
    requires
        forall|i: int, j: int|
            0 <= i < rows.len() && 0 <= j < rows.len() && #[trigger] rows[i].name == #[trigger] rows[j].name ==> i == j,
    ensures
        find_collection(without_collection(rows, name), k) == if k == name {
            None
        } else {
            find_collection(rows, k)
        },
{
    broadcast use vstd::seq_lib::group_filter_ensures, Seq::lemma_filter_contains_rev;

    let f = without_collection(rows, name);
    if exists|i: int| 0 <= i < f.len() && #[trigger] f[i].name == k {
        let j = choose|i: int| 0 <= i < f.len() && #[trigger] f[i].name == k;
        assert(f[j].name != name);
        assert(f.contains(f[j]));
        assert(rows.contains(f[j]));
        let i = choose|i: int| 0 <= i < rows.len() && #[trigger] rows[i].name == k;
        let m = choose|m: int| 0 <= m < rows.len() && rows[m] == f[j];
        assert(rows[m].name == k);
        assert(rows[i] == rows[m]);
    } else if k != name && exists|i: int| 0 <= i < rows.len() && #[trigger] rows[i].name == k {
        let i = choose|i: int| 0 <= i < rows.len() && #[trigger] rows[i].name == k;
        assert(f.contains(rows[i]));
    }
}

/// Without the notebook named `name`, a lookup of any other name finds what
/// it found before.
pub(crate) proof fn lemma_without_notebook(rows: Seq<NotebookRow>, name: Seq<char>, k: Seq<char>)
    requires
        forall|i: int, j: int|
            0 <= i < rows.len() && 0 <= j < rows.len() && #[trigger] rows[i].name == #[trigger] rows[j].name ==> i == j,
    ensures
        find_notebook(without_notebook(rows, name), k) == if k == name {
            None
        } else {
            find_notebook(rows, k)
        },
{
    broadcast use vstd::seq_lib::group_filter_ensures, Seq::lemma_filter_contains_rev;

    let f = without_notebook(rows, name);
    if exists|i: int| 0 <= i < f.len() && #[trigger] f[i].name == k {
        let j = choose|i: int| 0 <= i < f.len() && #[trigger] f[i].name == k;
        assert(f[j].name != name);
        assert(f.contains(f[j]));
        assert(rows.contains(f[j]));
        let i = choose|i: int| 0 <= i < rows.len() && #[trigger] rows[i].name == k;
        let m = choose|m: int| 0 <= m < rows.len() && rows[m] == f[j];
        assert(rows[m].name == k);
        assert(rows[i] == rows[m]);
    } else if k != name && exists|i: int| 0 <= i < rows.len() && #[trigger] rows[i].name == k {
        let i = choose|i: int| 0 <= i < rows.len() && #[trigger] rows[i].name == k;
        assert(f.contains(rows[i]));
    }
}

/// Without the note named `name`, a lookup of any other name finds what it
/// found before.
pub(crate) proof fn lemma_without_note(rows: Seq<NoteRow>, name: Seq<char>, k: Seq<char>)
    requires
        forall|i: int, j: int|
            0 <= i < rows.len() && 0 <= j < rows.len() && #[trigger] rows[i].name == #[trigger] rows[j].name ==> i == j,
    ensures
        find_note(without_note(rows, name), k) == if k == name {
            None
        } else {
            find_note(rows, k)
        },
{
    broadcast use vstd::seq_lib::group_filter_ensures, Seq::lemma_filter_contains_rev;

    let f = without_note(rows, name);
    if exists|i: int| 0 <= i < f.len() && #[trigger] f[i].name == k {
        let j = choose|i: int| 0 <= i < f.len() && #[trigger] f[i].name == k;
        assert(f[j].name != name);
        assert(f.contains(f[j]));
        assert(rows.contains(f[j]));
        let i = choose|i: int| 0 <= i < rows.len() && #[trigger] rows[i].name == k;
        let m = choose|m: int| 0 <= m < rows.len() && rows[m] == f[j];
        assert(rows[m].name == k);
        assert(rows[i] == rows[m]);
    } else if k != name && exists|i: int| 0 <= i < rows.len() && #[trigger] rows[i].name == k {
        let i = choose|i: int| 0 <= i < rows.len() && #[trigger] rows[i].name == k;
        assert(f.contains(rows[i]));
    }
}

/// Without the tag `t`, a lookup of any text but that of `t` finds what it
/// found before.
pub(crate) proof fn lemma_without_tag(rows: Seq<Tag>, t: Tag, k: Seq<char>)
    ensures
        find_tag(without_tag(rows, t), k) == if k == tag_text(t) {
            None
        } else {
            find_tag(rows, k)
        },
{
    broadcast use vstd::seq_lib::group_filter_ensures, Seq::lemma_filter_contains_rev;

    let f = without_tag(rows, t);
    if exists|i: int| 0 <= i < f.len() && tag_text(#[trigger] f[i]) == k {
        let j = choose|i: int| 0 <= i < f.len() && tag_text(#[trigger] f[i]) == k;
        assert(f[j] != t);
        lemma_tag_text_injective(f[j], t);
        assert(f.contains(f[j]));
        assert(rows.contains(f[j]));
        let i = choose|i: int| 0 <= i < rows.len() && tag_text(#[trigger] rows[i]) == k;
        let m = choose|m: int| 0 <= m < rows.len() && rows[m] == f[j];
        lemma_tag_text_injective(rows[i], rows[m]);
    } else if k != tag_text(t) && exists|i: int| 0 <= i < rows.len() && tag_text(#[trigger] rows[i]) == k {
        let i = choose|i: int| 0 <= i < rows.len() && tag_text(#[trigger] rows[i]) == k;
        assert(rows[i] != t);
        assert(f.contains(rows[i]));
    }
}

/// Replacing the collection at `i` by `new_row`, whose name is that of the old
/// row or one that no collection has: a lookup of the new name finds the new row,
/// of the old name, where it changed, nothing, and of any other name what it
/// found before; names stay unique.
pub(crate) proof fn lemma_update_collection(rows: Seq<CollectionRow>, i: int, new_row: CollectionRow, k: Seq<char>)
    requires
        forall|a: int, b: int|
            0 <= a < rows.len() && 0 <= b < rows.len() && #[trigger] rows[a].name == #[trigger] rows[b].name ==> a == b,
        0 <= i < rows.len(),
        new_row.name == rows[i].name || !has_collection(rows, new_row.name),
    ensures
        find_collection(rows.update(i, new_row), k) == if k == new_row.name {
            Some(new_row)
        } else if k == rows[i].name {
            None
        } else {
            find_collection(rows, k)
        },
        forall|a: int, b: int|
            0 <= a < rows.len() && 0 <= b < rows.len() && #[trigger] rows.update(i, new_row)[a].name
                == #[trigger] rows.update(i, new_row)[b].name ==> a == b,
{
    let u = rows.update(i, new_row);
    assert forall|a: int| 0 <= a < rows.len() && a != i implies #[trigger] u[a] == rows[a] by {}
    assert forall|a: int, b: int|
        0 <= a < rows.len() && 0 <= b < rows.len() && #[trigger] u[a].name == #[trigger] u[b].name implies a == b by {
        if a != i && b != i {
            assert(rows[a].name == rows[b].name);
        } else if a == i && b != i {
            assert(u[b] == rows[b]);
            assert(rows[b].name == new_row.name);
            if new_row.name == rows[i].name {
                assert(rows[b].name == rows[i].name);
            } else {
                assert(has_collection(rows, new_row.name));
            }
        } else if b == i && a != i {
            assert(u[a] == rows[a]);
            assert(rows[a].name == new_row.name);
            if new_row.name == rows[i].name {
                assert(rows[a].name == rows[i].name);
            } else {
                assert(has_collection(rows, new_row.name));
            }
        }
    }
    if k == new_row.name {
        assert(u[i].name == k);
        let j = choose|j: int| 0 <= j < u.len() && #[trigger] u[j].name == k;
        assert(u[j].name == u[i].name);
    } else if k == rows[i].name {
        if exists|j: int| 0 <= j < u.len() && #[trigger] u[j].name == k {
            let j = choose|j: int| 0 <= j < u.len() && #[trigger] u[j].name == k;
            assert(j != i);
            assert(u[j] == rows[j]);
            assert(rows[j].name == rows[i].name);
        }
    } else if exists|j: int| 0 <= j < rows.len() && #[trigger] rows[j].name == k {
        let j = choose|j: int| 0 <= j < rows.len() && #[trigger] rows[j].name == k;
        assert(j != i);
        assert(u[j] == rows[j]);
        assert(u[j].name == k);
        let m = choose|m: int| 0 <= m < u.len() && #[trigger] u[m].name == k;
        assert(m != i);
        assert(u[m] == rows[m]);
        assert(rows[m].name == k);
    } else {
        if exists|j: int| 0 <= j < u.len() && #[trigger] u[j].name == k {
            let j = choose|j: int| 0 <= j < u.len() && #[trigger] u[j].name == k;
            assert(j != i);
            assert(u[j] == rows[j]);
            assert(rows[j].name == k);
        }
    }
}

/// Replacing the notebook at `i` by `new_row`, whose name is that of the old
/// row or one that no notebook has: a lookup of the new name finds the new row,
/// of the old name, where it changed, nothing, and of any other name what it
/// found before; names stay unique.
pub(crate) proof fn lemma_update_notebook(rows: Seq<NotebookRow>, i: int, new_row: NotebookRow, k: Seq<char>)
    requires
        forall|a: int, b: int|
            0 <= a < rows.len() && 0 <= b < rows.len() && #[trigger] rows[a].name == #[trigger] rows[b].name ==> a == b,
        0 <= i < rows.len(),
        new_row.name == rows[i].name || !has_notebook(rows, new_row.name),
    ensures
        find_notebook(rows.update(i, new_row), k) == if k == new_row.name {
            Some(new_row)
        } else if k == rows[i].name {
            None
        } else {
            find_notebook(rows, k)
        },
        forall|a: int, b: int|
            0 <= a < rows.len() && 0 <= b < rows.len() && #[trigger] rows.update(i, new_row)[a].name
                == #[trigger] rows.update(i, new_row)[b].name ==> a == b,
{
    let u = rows.update(i, new_row);
    assert forall|a: int| 0 <= a < rows.len() && a != i implies #[trigger] u[a] == rows[a] by {}
    assert forall|a: int, b: int|
        0 <= a < rows.len() && 0 <= b < rows.len() && #[trigger] u[a].name == #[trigger] u[b].name implies a == b by {
        if a != i && b != i {
            assert(rows[a].name == rows[b].name);
        } else if a == i && b != i {
            assert(u[b] == rows[b]);
            assert(rows[b].name == new_row.name);
            if new_row.name == rows[i].name {
                assert(rows[b].name == rows[i].name);
            } else {
                assert(has_notebook(rows, new_row.name));
            }
        } else if b == i && a != i {
            assert(u[a] == rows[a]);
            assert(rows[a].name == new_row.name);
            if new_row.name == rows[i].name {
                assert(rows[a].name == rows[i].name);
            } else {
                assert(has_notebook(rows, new_row.name));
            }
        }
    }
    if k == new_row.name {
        assert(u[i].name == k);
        let j = choose|j: int| 0 <= j < u.len() && #[trigger] u[j].name == k;
        assert(u[j].name == u[i].name);
    } else if k == rows[i].name {
        if exists|j: int| 0 <= j < u.len() && #[trigger] u[j].name == k {
            let j = choose|j: int| 0 <= j < u.len() && #[trigger] u[j].name == k;
            assert(j != i);
            assert(u[j] == rows[j]);
            assert(rows[j].name == rows[i].name);
        }
    } else if exists|j: int| 0 <= j < rows.len() && #[trigger] rows[j].name == k {
        let j = choose|j: int| 0 <= j < rows.len() && #[trigger] rows[j].name == k;
        assert(j != i);
        assert(u[j] == rows[j]);
        assert(u[j].name == k);
        let m = choose|m: int| 0 <= m < u.len() && #[trigger] u[m].name == k;
        assert(m != i);
        assert(u[m] == rows[m]);
        assert(rows[m].name == k);
    } else {
        if exists|j: int| 0 <= j < u.len() && #[trigger] u[j].name == k {
            let j = choose|j: int| 0 <= j < u.len() && #[trigger] u[j].name == k;
            assert(j != i);
            assert(u[j] == rows[j]);
            assert(rows[j].name == k);
        }
    }
}

/// Replacing the note at `i` by `new_row`, whose name is that of the old
/// row or one that no note has: a lookup of the new name finds the new row,
/// of the old name, where it changed, nothing, and of any other name what it
/// found before; names stay unique.
pub(crate) proof fn lemma_update_note(rows: Seq<NoteRow>, i: int, new_row: NoteRow, k: Seq<char>)
    requires
        forall|a: int, b: int|
            0 <= a < rows.len() && 0 <= b < rows.len() && #[trigger] rows[a].name == #[trigger] rows[b].name ==> a == b,
        0 <= i < rows.len(),
        new_row.name == rows[i].name || !has_note(rows, new_row.name),
    ensures
        find_note(rows.update(i, new_row), k) == if k == new_row.name {
            Some(new_row)
        } else if k == rows[i].name {
            None
        } else {
            find_note(rows, k)
        },
        forall|a: int, b: int|
            0 <= a < rows.len() && 0 <= b < rows.len() && #[trigger] rows.update(i, new_row)[a].name
                == #[trigger] rows.update(i, new_row)[b].name ==> a == b,
{
    let u = rows.update(i, new_row);
    assert forall|a: int| 0 <= a < rows.len() && a != i implies #[trigger] u[a] == rows[a] by {}
    assert forall|a: int, b: int|
        0 <= a < rows.len() && 0 <= b < rows.len() && #[trigger] u[a].name == #[trigger] u[b].name implies a == b by {
        if a != i && b != i {
            assert(rows[a].name == rows[b].name);
        } else if a == i && b != i {
            assert(u[b] == rows[b]);
            assert(rows[b].name == new_row.name);
            if new_row.name == rows[i].name {
                assert(rows[b].name == rows[i].name);
            } else {
                assert(has_note(rows, new_row.name));
            }
        } else if b == i && a != i {
            assert(u[a] == rows[a]);
            assert(rows[a].name == new_row.name);
            if new_row.name == rows[i].name {
                assert(rows[a].name == rows[i].name);
            } else {
                assert(has_note(rows, new_row.name));
            }
        }
    }
    if k == new_row.name {
        assert(u[i].name == k);
        let j = choose|j: int| 0 <= j < u.len() && #[trigger] u[j].name == k;
        assert(u[j].name == u[i].name);
    } else if k == rows[i].name {
        if exists|j: int| 0 <= j < u.len() && #[trigger] u[j].name == k {
            let j = choose|j: int| 0 <= j < u.len() && #[trigger] u[j].name == k;
            assert(j != i);
            assert(u[j] == rows[j]);
            assert(rows[j].name == rows[i].name);
        }
    } else if exists|j: int| 0 <= j < rows.len() && #[trigger] rows[j].name == k {
        let j = choose|j: int| 0 <= j < rows.len() && #[trigger] rows[j].name == k;
        assert(j != i);
        assert(u[j] == rows[j]);
        assert(u[j].name == k);
        let m = choose|m: int| 0 <= m < u.len() && #[trigger] u[m].name == k;
        assert(m != i);
        assert(u[m] == rows[m]);
        assert(rows[m].name == k);
    } else {
        if exists|j: int| 0 <= j < u.len() && #[trigger] u[j].name == k {
            let j = choose|j: int| 0 <= j < u.len() && #[trigger] u[j].name == k;
            assert(j != i);
            assert(u[j] == rows[j]);
            assert(rows[j].name == k);
        }
    }
}

/// Appending a collection whose name is not stored: it is found under its
/// name, any other name finds what it found before, and names stay unique.
pub(crate) proof fn lemma_push_collection(rows: Seq<CollectionRow>, r: CollectionRow, k: Seq<char>)
    requires
        forall|a: int, b: int|
            0 <= a < rows.len() && 0 <= b < rows.len() && #[trigger] rows[a].name == #[trigger] rows[b].name ==> a == b,
        !has_collection(rows, r.name),
    ensures
        has_collection(rows.push(r), k) == (has_collection(rows, k) || k == r.name),
        find_collection(rows.push(r), k) == if k == r.name {
            Some(r)
        } else {
            find_collection(rows, k)
        },
        forall|a: int, b: int|
            0 <= a < rows.len() + 1 && 0 <= b < rows.len() + 1 && #[trigger] rows.push(r)[a].name
                == #[trigger] rows.push(r)[b].name ==> a == b,
{
    let p = rows.push(r);
    assert(p[rows.len() as int] == r);
    assert forall|a: int| 0 <= a < rows.len() implies #[trigger] p[a] == rows[a] by {}
    if has_collection(rows, k) {
        let j = choose|j: int| 0 <= j < rows.len() && #[trigger] rows[j].name == k;
        assert(p[j].name == k);
        let m = choose|m: int| 0 <= m < p.len() && #[trigger] p[m].name == k;
        if m < rows.len() {
            assert(rows[m].name == k);
        }
    } else if k == r.name {
        assert(p[rows.len() as int].name == k);
        let m = choose|m: int| 0 <= m < p.len() && #[trigger] p[m].name == k;
        if m < rows.len() {
            assert(rows[m].name == k);
        }
    } else {
        if has_collection(p, k) {
            let m = choose|m: int| 0 <= m < p.len() && #[trigger] p[m].name == k;
            if m < rows.len() {
                assert(rows[m].name == k);
            }
        }
    }
    assert forall|a: int, b: int|
        0 <= a < rows.len() + 1 && 0 <= b < rows.len() + 1 && #[trigger] p[a].name == #[trigger] p[b].name implies a
            == b by {
        if a < rows.len() && b == rows.len() {
            assert(rows[a].name == r.name);
        }
        if b < rows.len() && a == rows.len() {
            assert(rows[b].name == r.name);
        }
    }
}

/// Appending a notebook whose name is not stored: it is found under its
/// name, any other name finds what it found before, and names stay unique.
pub(crate) proof fn lemma_push_notebook(rows: Seq<NotebookRow>, r: NotebookRow, k: Seq<char>)
    requires
        forall|a: int, b: int|
            0 <= a < rows.len() && 0 <= b < rows.len() && #[trigger] rows[a].name == #[trigger] rows[b].name ==> a == b,
        !has_notebook(rows, r.name),
    ensures
        has_notebook(rows.push(r), k) == (has_notebook(rows, k) || k == r.name),
        find_notebook(rows.push(r), k) == if k == r.name {
            Some(r)
        } else {
            find_notebook(rows, k)
        },
        forall|a: int, b: int|
            0 <= a < rows.len() + 1 && 0 <= b < rows.len() + 1 && #[trigger] rows.push(r)[a].name
                == #[trigger] rows.push(r)[b].name ==> a == b,
{
    let p = rows.push(r);
    assert(p[rows.len() as int] == r);
    assert forall|a: int| 0 <= a < rows.len() implies #[trigger] p[a] == rows[a] by {}
    if has_notebook(rows, k) {
        let j = choose|j: int| 0 <= j < rows.len() && #[trigger] rows[j].name == k;
        assert(p[j].name == k);
        let m = choose|m: int| 0 <= m < p.len() && #[trigger] p[m].name == k;
        if m < rows.len() {
            assert(rows[m].name == k);
        }
    } else if k == r.name {
        assert(p[rows.len() as int].name == k);
        let m = choose|m: int| 0 <= m < p.len() && #[trigger] p[m].name == k;
        if m < rows.len() {
            assert(rows[m].name == k);
        }
    } else {
        if has_notebook(p, k) {
            let m = choose|m: int| 0 <= m < p.len() && #[trigger] p[m].name == k;
            if m < rows.len() {
                assert(rows[m].name == k);
            }
        }
    }
    assert forall|a: int, b: int|
        0 <= a < rows.len() + 1 && 0 <= b < rows.len() + 1 && #[trigger] p[a].name == #[trigger] p[b].name implies a
            == b by {
        if a < rows.len() && b == rows.len() {
            assert(rows[a].name == r.name);
        }
        if b < rows.len() && a == rows.len() {
            assert(rows[b].name == r.name);
        }
    }
}

/// Appending a note whose name is not stored: it is found under its
/// name, any other name finds what it found before, and names stay unique.
pub(crate) proof fn lemma_push_note(rows: Seq<NoteRow>, r: NoteRow, k: Seq<char>)
    requires
        forall|a: int, b: int|
            0 <= a < rows.len() && 0 <= b < rows.len() && #[trigger] rows[a].name == #[trigger] rows[b].name ==> a == b,
        !has_note(rows, r.name),
    ensures
        has_note(rows.push(r), k) == (has_note(rows, k) || k == r.name),
        find_note(rows.push(r), k) == if k == r.name {
            Some(r)
        } else {
            find_note(rows, k)
        },
        forall|a: int, b: int|
            0 <= a < rows.len() + 1 && 0 <= b < rows.len() + 1 && #[trigger] rows.push(r)[a].name
                == #[trigger] rows.push(r)[b].name ==> a == b,
{
    let p = rows.push(r);
    assert(p[rows.len() as int] == r);
    assert forall|a: int| 0 <= a < rows.len() implies #[trigger] p[a] == rows[a] by {}
    if has_note(rows, k) {
        let j = choose|j: int| 0 <= j < rows.len() && #[trigger] rows[j].name == k;
        assert(p[j].name == k);
        let m = choose|m: int| 0 <= m < p.len() && #[trigger] p[m].name == k;
        if m < rows.len() {
            assert(rows[m].name == k);
        }
    } else if k == r.name {
        assert(p[rows.len() as int].name == k);
        let m = choose|m: int| 0 <= m < p.len() && #[trigger] p[m].name == k;
        if m < rows.len() {
            assert(rows[m].name == k);
        }
    } else {
        if has_note(p, k) {
            let m = choose|m: int| 0 <= m < p.len() && #[trigger] p[m].name == k;
            if m < rows.len() {
                assert(rows[m].name == k);
            }
        }
    }
    assert forall|a: int, b: int|
        0 <= a < rows.len() + 1 && 0 <= b < rows.len() + 1 && #[trigger] p[a].name == #[trigger] p[b].name implies a
            == b by {
        if a < rows.len() && b == rows.len() {
            assert(rows[a].name == r.name);
        }
        if b < rows.len() && a == rows.len() {
            assert(rows[b].name == r.name);
        }
    }
}

/// Appending a tag whose text is not stored: it is found under its text,
/// any other text finds what it found before.
pub(crate) proof fn lemma_push_tag(rows: Seq<Tag>, t: Tag, k: Seq<char>)
    requires
        !has_tag(rows, tag_text(t)),
    ensures
        has_tag(rows.push(t), k) == (has_tag(rows, k) || k == tag_text(t)),
        find_tag(rows.push(t), k) == if k == tag_text(t) {
            Some(t)
        } else {
            find_tag(rows, k)
        },
{
    let p = rows.push(t);
    assert(p[rows.len() as int] == t);
    assert forall|a: int| 0 <= a < rows.len() implies #[trigger] p[a] == rows[a] by {}
    if has_tag(rows, k) {
        let j = choose|j: int| 0 <= j < rows.len() && tag_text(#[trigger] rows[j]) == k;
        assert(tag_text(p[j]) == k);
        let m = choose|m: int| 0 <= m < p.len() && tag_text(#[trigger] p[m]) == k;
        let i = choose|i: int| 0 <= i < rows.len() && tag_text(#[trigger] rows[i]) == k;
        if m < rows.len() {
            lemma_tag_text_injective(rows[m], rows[i]);
        } else {
            assert(tag_text(rows[i]) == tag_text(t));
        }
    } else if k == tag_text(t) {
        assert(tag_text(p[rows.len() as int]) == k);
        let m = choose|m: int| 0 <= m < p.len() && tag_text(#[trigger] p[m]) == k;
        if m < rows.len() {
            assert(tag_text(rows[m]) == k);
        }
        lemma_tag_text_injective(p[m], t);
    } else {
        if has_tag(p, k) {
            let m = choose|m: int| 0 <= m < p.len() && tag_text(#[trigger] p[m]) == k;
            if m < rows.len() {
                assert(tag_text(rows[m]) == k);
            }
        }
    }
}

/// A store that differs from a well-formed one only in its tags, which are
/// unique and hold every tag that a link refers to, is well formed.
proof fn lemma_tags_changed_well_formed(s: Store, s2: Store)
    requires
        well_formed(s),
        s2.collections == s.collections,
        s2.notebooks == s.notebooks,
        s2.notes == s.notes,
        s2.note_tags == s.note_tags,
        forall|i: int, j: int|
            0 <= i < s2.tags.len() && 0 <= j < s2.tags.len() && #[trigger] s2.tags[i] == #[trigger] s2.tags[j] ==> i == j,
        forall|i: int| 0 <= i < s.note_tags.len() ==> has_tag(s2.tags, #[trigger] s.note_tags[i].tag_name),
    ensures
        well_formed(s2),
{
    reveal(well_formed);
    assert forall|i: int| 0 <= i < s2.note_tags.len() implies has_note(s2.notes, #[trigger] s2.note_tags[i].note_name)
        && has_tag(s2.tags, s2.note_tags[i].tag_name) by {
        assert(has_note(s.notes, s.note_tags[i].note_name));
        assert(has_tag(s2.tags, s.note_tags[i].tag_name));
    }
}

/// Inserting a row that the database accepts keeps the store well formed;
/// a new notebook has no notes and a new note no tag links.
pub(crate) proof fn lemma_insert_well_formed(s: Store, row: RowView)
    requires
        well_formed(s),
        serve(s, Query::Insert { row }) is Some,
        !(row is NoteTag),
    ensures
        well_formed(serve(s, Query::Insert { row }).unwrap().0),
        forall|k: Seq<char>|
            #[trigger] has_collection(serve(s, Query::Insert { row }).unwrap().0.collections, k) == (has_collection(
                s.collections,
                k,
            ) || (row matches RowView::Collection(c) && k == c.name)),
        row matches RowView::Notebook(nb) ==> notes_in(serve(s, Query::Insert { row }).unwrap().0.notes, nb.name)
            == Seq::<NoteRow>::empty(),
        row matches RowView::Note(n) ==> links_of(serve(s, Query::Insert { row }).unwrap().0.note_tags, n.name)
            == Seq::<crate::models::note_tag::NoteTagRow>::empty(),
{
    reveal(well_formed);
    broadcast use vstd::seq_lib::group_filter_ensures, Seq::lemma_filter_contains_rev;

    let (s2, a) = serve(s, Query::Insert { row }).unwrap();
    match row {
        RowView::Collection(c) => {
            assert forall|k: Seq<char>| #[trigger] has_collection(s2.collections, k) == (has_collection(s.collections, k) || k == c.name) by {
                lemma_push_collection(s.collections, c, k);
            }
            lemma_push_collection(s.collections, c, c.name);
            assert(well_formed(s2));
        },
        RowView::Notebook(nb) => {
            assert forall|k: Seq<char>| #[trigger] has_notebook(s2.notebooks, k) == (has_notebook(s.notebooks, k) || k == nb.name) by {
                lemma_push_notebook(s.notebooks, nb, k);
            }
            lemma_push_notebook(s.notebooks, nb, nb.name);
            assert forall|i: int| 0 <= i < s2.notebooks.len() implies has_collection(s2.collections, #[trigger] s2.notebooks[i].collection_name) by {
                if i < s.notebooks.len() {
                    assert(s2.notebooks[i] == s.notebooks[i]);
                }
            }
            assert(well_formed(s2));
            let notes = notes_in(s2.notes, nb.name);
            if notes.len() > 0 {
                assert(notes.contains(notes[0]));
                assert(s2.notes.contains(notes[0]));
                let i = choose|i: int| 0 <= i < s2.notes.len() && s2.notes[i] == notes[0];
                assert(has_notebook(s.notebooks, s.notes[i].notebook_name));
            }
            assert(notes =~= Seq::<NoteRow>::empty());
        },
        RowView::Note(n) => {
            assert forall|k: Seq<char>| #[trigger] has_note(s2.notes, k) == (has_note(s.notes, k) || k == n.name) by {
                lemma_push_note(s.notes, n, k);
            }
            lemma_push_note(s.notes, n, n.name);
            assert forall|i: int| 0 <= i < s2.notes.len() implies has_notebook(s2.notebooks, #[trigger] s2.notes[i].notebook_name) by {
                if i < s.notes.len() {
                    assert(s2.notes[i] == s.notes[i]);
                }
            }
            assert(well_formed(s2));
            let links = links_of(s2.note_tags, n.name);
            if links.len() > 0 {
                assert(links.contains(links[0]));
                assert(s2.note_tags.contains(links[0]));
                let i = choose|i: int| 0 <= i < s2.note_tags.len() && s2.note_tags[i] == links[0];
                assert(has_note(s.notes, s.note_tags[i].note_name));
            }
            assert(links =~= Seq::<crate::models::note_tag::NoteTagRow>::empty());
        },
        RowView::Tag(t) => {
            assert forall|k: Seq<char>| #[trigger] has_tag(s2.tags, k) == (has_tag(s.tags, k) || k == tag_text(t)) by {
                lemma_push_tag(s.tags, t, k);
            }
            lemma_push_tag(s.tags, t, tag_text(t));
            assert forall|i: int, j: int|
                0 <= i < s2.tags.len() && 0 <= j < s2.tags.len() && #[trigger] s2.tags[i] == #[trigger] s2.tags[j] implies i == j by {
                assert(s2.tags[s.tags.len() as int] == t);
                if i < s.tags.len() && j == s.tags.len() {
                    assert(s2.tags[i] == s.tags[i]);
                    assert(tag_text(s.tags[i]) == tag_text(t));
                }
                if j < s.tags.len() && i == s.tags.len() {
                    assert(s2.tags[j] == s.tags[j]);
                    assert(tag_text(s.tags[j]) == tag_text(t));
                }
                if i < s.tags.len() && j < s.tags.len() {
                    assert(s2.tags[i] == s.tags[i]);
                    assert(s2.tags[j] == s.tags[j]);
                }
            }
            assert forall|i: int| 0 <= i < s.note_tags.len() implies has_tag(s2.tags, #[trigger] s.note_tags[i].tag_name) by {
                assert(has_note(s.notes, s.note_tags[i].note_name));
                assert(has_tag(s.tags, s.note_tags[i].tag_name));
            }
            lemma_tags_changed_well_formed(s, s2);
            assert(well_formed(s2));
        },
        RowView::NoteTag(_) => {},
    }
}

/// Keeping some rows of a table whose rows have unique keys leaves the keys
/// unique.
pub(crate) proof fn lemma_filter_unique<A, K>(xs: Seq<A>, p: spec_fn(A) -> bool, key: spec_fn(A) -> K)
    requires
        forall|i: int, j: int|
            #![trigger xs[i], xs[j]]
            0 <= i < xs.len() && 0 <= j < xs.len() && key(xs[i]) == key(xs[j]) ==> i == j,
    ensures
        forall|i: int, j: int|
            #![trigger xs.filter(p)[i], xs.filter(p)[j]]
            0 <= i < xs.filter(p).len() && 0 <= j < xs.filter(p).len() && key(xs.filter(p)[i]) == key(
                xs.filter(p)[j],
            ) ==> i == j,
    decreases xs.len(),
{
    reveal(Seq::filter);
    if xs.len() > 0 {
        let d = xs.drop_last();
        assert forall|i: int, j: int|
            #![trigger d[i], d[j]]
            0 <= i < d.len() && 0 <= j < d.len() && key(d[i]) == key(d[j]) implies i == j by {
            assert(d[i] == xs[i]);
            assert(d[j] == xs[j]);
        }
        lemma_filter_unique(d, p, key);
        let f = d.filter(p);
        if p(xs.last()) {
            assert forall|m: int| 0 <= m < f.len() implies key(#[trigger] f[m]) != key(xs.last()) by {
                assert(f.contains(f[m]));
                d.lemma_filter_contains_rev(p, f[m]);
                let idx = choose|idx: int| 0 <= idx < d.len() && d[idx] == f[m];
                assert(xs[idx] == d[idx]);
                assert(xs[xs.len() - 1] == xs.last());
            }
            let g = f.push(xs.last());
            assert forall|i: int, j: int|
                #![trigger g[i], g[j]]
                0 <= i < g.len() && 0 <= j < g.len() && key(g[i]) == key(g[j]) implies i == j by {
                if i < f.len() {
                    assert(g[i] == f[i]);
                }
                if j < f.len() {
                    assert(g[j] == f[j]);
                }
            }
        }
    }
}

/// A store whose links are some of the links of a well-formed store with the
/// same other tables, and unique, is well formed.
proof fn lemma_fewer_links_well_formed(s: Store, s2: Store)
    requires
        well_formed(s),
        s2.collections == s.collections,
        s2.notebooks == s.notebooks,
        s2.notes == s.notes,
        s2.tags == s.tags,
        forall|i: int| 0 <= i < s2.note_tags.len() ==> s.note_tags.contains(#[trigger] s2.note_tags[i]),
        forall|i: int, j: int|
            0 <= i < s2.note_tags.len() && 0 <= j < s2.note_tags.len() && #[trigger] s2.note_tags[i]
                == #[trigger] s2.note_tags[j] ==> i == j,
    ensures
        well_formed(s2),
{
    reveal(well_formed);
    assert forall|i: int| 0 <= i < s2.note_tags.len() implies has_note(s2.notes, #[trigger] s2.note_tags[i].note_name)
        && has_tag(s2.tags, s2.note_tags[i].tag_name) by {
        assert(s.note_tags.contains(s2.note_tags[i]));
        let m = choose|m: int| 0 <= m < s.note_tags.len() && s.note_tags[m] == s2.note_tags[i];
        assert(has_note(s.notes, s.note_tags[m].note_name));
    }
}

/// Adding a link that is not stored yet, between a stored note and a stored
/// tag, keeps a store well formed.
proof fn lemma_insert_link_well_formed(s: Store, l: NoteTagRow)
    requires
        well_formed(s),
        !has_link(s.note_tags, l.note_name, l.tag_name),
        has_note(s.notes, l.note_name),
        has_tag(s.tags, l.tag_name),
    ensures
        well_formed(Store { note_tags: s.note_tags.push(l), ..s }),
{
    reveal(well_formed);
    let s2 = Store { note_tags: s.note_tags.push(l), ..s };
    let n = s.note_tags.len() as int;
    assert(s2.note_tags[n] == l);
    assert forall|i: int, j: int|
        0 <= i < s2.note_tags.len() && 0 <= j < s2.note_tags.len() && #[trigger] s2.note_tags[i]
            == #[trigger] s2.note_tags[j] implies i == j by {
        if i < n {
            assert(s2.note_tags[i] == s.note_tags[i]);
        }
        if j < n {
            assert(s2.note_tags[j] == s.note_tags[j]);
        }
    }
    assert forall|i: int| 0 <= i < s2.note_tags.len() implies has_note(s2.notes, #[trigger] s2.note_tags[i].note_name)
        && has_tag(s2.tags, s2.note_tags[i].tag_name) by {
        if i < n {
            assert(s2.note_tags[i] == s.note_tags[i]);
            assert(has_note(s.notes, s.note_tags[i].note_name));
        }
    }
}

/// Inserting any row that the database accepts keeps a store well formed.
proof fn lemma_insert_any_well_formed(s: Store, row: RowView)
    requires
        well_formed(s),
        serve(s, Query::Insert { row }) is Some,
    ensures
        well_formed(serve(s, Query::Insert { row }).unwrap().0),
{
    if let RowView::NoteTag(l) = row {
        lemma_insert_link_well_formed(s, l);
    } else {
        lemma_insert_well_formed(s, row);
    }
}

/// An accepted update of a collection keeps a store well formed.
proof fn lemma_update_collection_well_formed(s: Store, current: CollectionRow, name: Option<Seq<char>>, description: Option<Seq<char>>)
    requires
        well_formed(s),
        serve(s, Query::UpdateCollection { current, name, description }) is Some,
    ensures
        well_formed(serve(s, Query::UpdateCollection { current, name, description }).unwrap().0),
{
    reveal(well_formed);
    let s2 = serve(s, Query::UpdateCollection { current, name, description }).unwrap().0;
    let i = choose|i: int| 0 <= i < s.collections.len() && #[trigger] s.collections[i].name == current.name;
    let old = s.collections[i].name;
    let new_row = s2.collections[i];
    assert(s2.collections == s.collections.update(i, new_row));
    lemma_update_collection(s.collections, i, new_row, new_row.name);
    assert forall|m: int| 0 <= m < s2.notebooks.len() implies has_collection(
        s2.collections,
        #[trigger] s2.notebooks[m].collection_name,
    ) by {
        let c = s.notebooks[m].collection_name;
        lemma_update_collection(s.collections, i, new_row, c);
        if c == old && new_row.name != old {
            assert(collection_used(s, old));
        }
    }
}

/// An accepted update of a notebook keeps a store well formed.
proof fn lemma_update_notebook_well_formed(s: Store, current: NotebookRow, name: Option<Seq<char>>, description: Option<Seq<char>>, collection_name: Option<Seq<char>>)
    requires
        well_formed(s),
        serve(s, Query::UpdateNotebook { current, name, description, collection_name }) is Some,
    ensures
        well_formed(serve(s, Query::UpdateNotebook { current, name, description, collection_name }).unwrap().0),
{
    reveal(well_formed);
    let s2 = serve(s, Query::UpdateNotebook { current, name, description, collection_name }).unwrap().0;
    let i = choose|i: int| 0 <= i < s.notebooks.len() && #[trigger] s.notebooks[i].name == current.name;
    let old = s.notebooks[i].name;
    let new_row = s2.notebooks[i];
    assert(s2.notebooks == s.notebooks.update(i, new_row));
    lemma_update_notebook(s.notebooks, i, new_row, new_row.name);
    assert forall|m: int| 0 <= m < s2.notebooks.len() implies has_collection(
        s2.collections,
        #[trigger] s2.notebooks[m].collection_name,
    ) by {
        if m != i {
            assert(s2.notebooks[m] == s.notebooks[m]);
        }
    }
    assert forall|m: int| 0 <= m < s2.notes.len() implies has_notebook(s2.notebooks, #[trigger] s2.notes[m].notebook_name) by {
        let c = s.notes[m].notebook_name;
        lemma_update_notebook(s.notebooks, i, new_row, c);
        if c == old && new_row.name != old {
            assert(notebook_used(s, old));
        }
    }
}

/// An accepted update of a note keeps a store well formed.
proof fn lemma_update_note_well_formed(s: Store, current: NoteRow, name: Option<Seq<char>>, topic: Option<Seq<char>>, content: Option<Seq<char>>)
    requires
        well_formed(s),
        serve(s, Query::UpdateNote { current, name, topic, content }) is Some,
    ensures
        well_formed(serve(s, Query::UpdateNote { current, name, topic, content }).unwrap().0),
{
    reveal(well_formed);
    let s2 = serve(s, Query::UpdateNote { current, name, topic, content }).unwrap().0;
    let i = choose|i: int| 0 <= i < s.notes.len() && #[trigger] s.notes[i].name == current.name;
    let old = s.notes[i].name;
    let new_row = s2.notes[i];
    assert(s2.notes == s.notes.update(i, new_row));
    lemma_update_note(s.notes, i, new_row, new_row.name);
    assert forall|m: int| 0 <= m < s2.notes.len() implies has_notebook(s2.notebooks, #[trigger] s2.notes[m].notebook_name) by {
        if m != i {
            assert(s2.notes[m] == s.notes[m]);
        }
    }
    assert forall|m: int| 0 <= m < s2.note_tags.len() implies has_note(s2.notes, #[trigger] s2.note_tags[m].note_name)
        && has_tag(s2.tags, s2.note_tags[m].tag_name) by {
        let c = s.note_tags[m].note_name;
        lemma_update_note(s.notes, i, new_row, c);
        if c == old && new_row.name != old {
            assert(note_used(s, old));
        }
    }
}

/// An accepted deletion of a collection keeps a store well formed.
proof fn lemma_delete_collection_well_formed(s: Store, r: CollectionRow)
    requires
        well_formed(s),
        serve(s, Query::Delete { row: RowView::Collection(r) }) is Some,
    ensures
        well_formed(serve(s, Query::Delete { row: RowView::Collection(r) }).unwrap().0),
{
    reveal(well_formed);
    broadcast use vstd::seq_lib::group_filter_ensures, Seq::lemma_filter_contains_rev;

    let s2 = serve(s, Query::Delete { row: RowView::Collection(r) }).unwrap().0;
        lemma_filter_unique(s.collections, collection_not_named(r.name), |c: CollectionRow| c.name);
        assert forall|k: Seq<char>| k != r.name implies #[trigger] has_collection(s2.collections, k) == has_collection(s.collections, k) by {
            lemma_without_collection(s.collections, r.name, k);
        }
        assert forall|m: int| 0 <= m < s2.notebooks.len() implies has_collection(s2.collections, #[trigger] s2.notebooks[m].collection_name) by {
            assert(s.notebooks[m].collection_name != r.name);
        }
}

/// An accepted deletion of a notebook keeps a store well formed.
proof fn lemma_delete_notebook_well_formed(s: Store, r: NotebookRow)
    requires
        well_formed(s),
        serve(s, Query::Delete { row: RowView::Notebook(r) }) is Some,
    ensures
        well_formed(serve(s, Query::Delete { row: RowView::Notebook(r) }).unwrap().0),
{
    reveal(well_formed);
    broadcast use vstd::seq_lib::group_filter_ensures, Seq::lemma_filter_contains_rev;

    let s2 = serve(s, Query::Delete { row: RowView::Notebook(r) }).unwrap().0;
        lemma_filter_unique(s.notebooks, notebook_not_named(r.name), |c: NotebookRow| c.name);
        assert forall|k: Seq<char>| k != r.name implies #[trigger] has_notebook(s2.notebooks, k) == has_notebook(s.notebooks, k) by {
            lemma_without_notebook(s.notebooks, r.name, k);
        }
        assert forall|m: int| 0 <= m < s2.notes.len() implies has_notebook(s2.notebooks, #[trigger] s2.notes[m].notebook_name) by {
            assert(s.notes[m].notebook_name != r.name);
        }
        assert forall|m: int| 0 <= m < s2.notebooks.len() implies has_collection(s2.collections, #[trigger] s2.notebooks[m].collection_name) by {
            assert(s2.notebooks.contains(s2.notebooks[m]));
            let x = choose|x: int| 0 <= x < s.notebooks.len() && s.notebooks[x] == s2.notebooks[m];
            assert(has_collection(s.collections, s.notebooks[x].collection_name));
        }
}

/// An accepted deletion of a note keeps a store well formed.
proof fn lemma_delete_note_well_formed(s: Store, r: NoteRow)
    requires
        well_formed(s),
        serve(s, Query::Delete { row: RowView::Note(r) }) is Some,
    ensures
        well_formed(serve(s, Query::Delete { row: RowView::Note(r) }).unwrap().0),
{
    reveal(well_formed);
    broadcast use vstd::seq_lib::group_filter_ensures, Seq::lemma_filter_contains_rev;

    let s2 = serve(s, Query::Delete { row: RowView::Note(r) }).unwrap().0;
        lemma_filter_unique(s.notes, note_not_named(r.name), |c: NoteRow| c.name);
        assert forall|k: Seq<char>| k != r.name implies #[trigger] has_note(s2.notes, k) == has_note(s.notes, k) by {
            lemma_without_note(s.notes, r.name, k);
        }
        assert forall|m: int| 0 <= m < s2.note_tags.len() implies has_note(s2.notes, #[trigger] s2.note_tags[m].note_name)
            && has_tag(s2.tags, s2.note_tags[m].tag_name) by {
            assert(s.note_tags[m].note_name != r.name);
            assert(has_note(s.notes, s.note_tags[m].note_name));
        }
        assert forall|m: int| 0 <= m < s2.notes.len() implies has_notebook(s2.notebooks, #[trigger] s2.notes[m].notebook_name) by {
            assert(s2.notes.contains(s2.notes[m]));
            let x = choose|x: int| 0 <= x < s.notes.len() && s.notes[x] == s2.notes[m];
            assert(has_notebook(s.notebooks, s.notes[x].notebook_name));
        }
}

/// An accepted deletion of a tag keeps a store well formed.
proof fn lemma_delete_tag_well_formed(s: Store, t: Tag)
    requires
        well_formed(s),
        serve(s, Query::Delete { row: RowView::Tag(t) }) is Some,
    ensures
        well_formed(serve(s, Query::Delete { row: RowView::Tag(t) }).unwrap().0),
{
    reveal(well_formed);
    broadcast use vstd::seq_lib::group_filter_ensures, Seq::lemma_filter_contains_rev;

    let s2 = serve(s, Query::Delete { row: RowView::Tag(t) }).unwrap().0;
        let key = |c: Tag| c;
        lemma_filter_unique(s.tags, tag_other_than(t), key);
        assert forall|i: int, j: int|
            0 <= i < s2.tags.len() && 0 <= j < s2.tags.len() && #[trigger] s2.tags[i] == #[trigger] s2.tags[j] implies i
                == j by {
            assert(key(s2.tags[i]) == key(s2.tags[j]));
        }
        assert forall|k: Seq<char>| k != tag_text(t) implies #[trigger] has_tag(s2.tags, k) == has_tag(s.tags, k) by {
            lemma_without_tag(s.tags, t, k);
        }
        assert forall|m: int| 0 <= m < s.note_tags.len() implies has_tag(s2.tags, #[trigger] s.note_tags[m].tag_name) by {
            assert(s.note_tags[m].tag_name != tag_text(t));
            assert(has_note(s.notes, s.note_tags[m].note_name));
        }
        lemma_tags_changed_well_formed(s, s2);
}

/// An accepted deletion of a link keeps a store well formed.
proof fn lemma_delete_note_tag_well_formed(s: Store, r: NoteTagRow)
    requires
        well_formed(s),
        serve(s, Query::Delete { row: RowView::NoteTag(r) }) is Some,
    ensures
        well_formed(serve(s, Query::Delete { row: RowView::NoteTag(r) }).unwrap().0),
{
    reveal(well_formed);
    broadcast use vstd::seq_lib::group_filter_ensures, Seq::lemma_filter_contains_rev;

    let s2 = serve(s, Query::Delete { row: RowView::NoteTag(r) }).unwrap().0;
        lemma_filter_unique(s.note_tags, link_other_than(r), |l: NoteTagRow| l);
        assert forall|m: int| 0 <= m < s2.note_tags.len() implies s.note_tags.contains(#[trigger] s2.note_tags[m]) by {
            assert(s2.note_tags.contains(s2.note_tags[m]));
        }
        lemma_fewer_links_well_formed(s, s2);
}

/// An accepted deletion of a row keeps a store well formed.
proof fn lemma_delete_well_formed(s: Store, row: RowView)
    requires
        well_formed(s),
        serve(s, Query::Delete { row }) is Some,
    ensures
        well_formed(serve(s, Query::Delete { row }).unwrap().0),
{
    match row {
        RowView::Collection(r) => lemma_delete_collection_well_formed(s, r),
        RowView::Notebook(r) => lemma_delete_notebook_well_formed(s, r),
        RowView::Note(r) => lemma_delete_note_well_formed(s, r),
        RowView::Tag(t) => lemma_delete_tag_well_formed(s, t),
        RowView::NoteTag(r) => lemma_delete_note_tag_well_formed(s, r),
    }
}

/// Removing the links of a note keeps a store well formed.
proof fn lemma_unlink_note_well_formed(s: Store, note_name: Seq<char>)
    requires
        well_formed(s),
        serve(s, Query::DeleteNoteTagsOfNote { note_name }) is Some,
    ensures
        well_formed(serve(s, Query::DeleteNoteTagsOfNote { note_name }).unwrap().0),
{
    reveal(well_formed);
    broadcast use vstd::seq_lib::group_filter_ensures, Seq::lemma_filter_contains_rev;

    let s2 = serve(s, Query::DeleteNoteTagsOfNote { note_name }).unwrap().0;
            lemma_filter_unique(s.note_tags, link_not_of(note_name), |l: NoteTagRow| l);
            assert forall|m: int| 0 <= m < s2.note_tags.len() implies s.note_tags.contains(#[trigger] s2.note_tags[m]) by {
                assert(s2.note_tags.contains(s2.note_tags[m]));
            }
            lemma_fewer_links_well_formed(s, s2);
}

/// Emptying a table that no other row refers to keeps a store well formed.
proof fn lemma_clear_well_formed(s: Store, table: Table)
    requires
        well_formed(s),
        serve(s, Query::DeleteAll { table }) is Some,
    ensures
        well_formed(serve(s, Query::DeleteAll { table }).unwrap().0),
{
    reveal(well_formed);
}

/// Every state the database reaches keeps its keys: whatever request it
/// accepts, a well-formed store stays well formed, with no two rows of a
/// table sharing a key and every row referring only to stored rows.
pub proof fn law_serve_keeps_well_formed(s: Store, q: Query)
    requires
        well_formed(s),
        serve(s, q) is Some,
    ensures
        well_formed(serve(s, q).unwrap().0),
{
    match q {
        Query::Insert { row } => lemma_insert_any_well_formed(s, row),
        Query::UpdateCollection { current, name, description } => lemma_update_collection_well_formed(
            s,
            current,
            name,
            description,
        ),
        Query::UpdateNotebook { current, name, description, collection_name } => lemma_update_notebook_well_formed(
            s,
            current,
            name,
            description,
            collection_name,
        ),
        Query::UpdateNote { current, name, topic, content } => lemma_update_note_well_formed(
            s,
            current,
            name,
            topic,
            content,
        ),
        Query::Delete { row } => lemma_delete_well_formed(s, row),
        Query::DeleteNoteTagsOfNote { note_name } => lemma_unlink_note_well_formed(s, note_name),
        Query::DeleteAll { table } => lemma_clear_well_formed(s, table),
        _ => {},
    }
}

/// Running any operation against a well-formed store leaves it well formed.
pub proof fn law_run_keeps_well_formed<St, V>(
    step: spec_fn(St, Result<Answer, Failure>) -> (St, Next<V>),
    st: St,
    s: Store,
    q: Query,
    fuel: nat,
)
    requires
        well_formed(s),
    ensures
        well_formed(run(step, st, s, q, fuel).0),
    decreases fuel,
{
    if serve(s, q) is Some {
        law_serve_keeps_well_formed(s, q);
        let (s2, a) = serve(s, q).unwrap();
        if step(st, Ok(a)).1 is Ask && fuel > 0 {
            law_run_keeps_well_formed(step, step(st, Ok(a)).0, s2, step(st, Ok(a)).1->Ask_0, (fuel - 1) as nat);
        }
    }
}

} // verus!
