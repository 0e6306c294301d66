// The operations run against an in-memory database that keeps primary and
// foreign keys, as the tables of the schema do.

use database::crud::delete::delete_one;
use database::crud::get::{get_all, get_by_name, GetAllQueryResult, GetByNameQueryResult};
use database::crud::new::{create_one, CreateResult, NewEntityData};
use database::crud::query::{DbError, Reply, Request, Row, Rows, Step, Table};
use database::crud::update::{update_one, UpdateEntityData, UpdateResult};
use database::crud::EntityKind;
use database::models::taxonomy::Tag;
use database::models::{collection, note, note_tag, notebook, tag};
use database::sampledata::{insert_sample_data, remove_sample_data};

#[derive(Default)]
struct MemDb {
    collections: Vec<collection::Model>,
    notebooks: Vec<notebook::Model>,
    notes: Vec<note::Model>,
    tags: Vec<tag::Model>,
    note_tags: Vec<note_tag::Model>,
    requests: Vec<Request>,
}

fn refused(what: &str) -> DbError {
    DbError::Backend(what.to_string())
}

impl MemDb {
    fn find(&self, kind: EntityKind, key: &str) -> Option<Row> {
        match kind {
            EntityKind::Collection => self.collections.iter().find(|c| c.name == key).cloned().map(Row::Collection),
            EntityKind::Notebook => self.notebooks.iter().find(|c| c.name == key).cloned().map(Row::Notebook),
            EntityKind::Note => self.notes.iter().find(|c| c.name == key).cloned().map(Row::Note),
            EntityKind::Tag => self.tags.iter().find(|t| t.tag.to_value() == key).cloned().map(Row::Tag),
        }
    }

    fn serve(&mut self, req: Request) -> Result<Reply, DbError> {
        self.requests.push(req.clone());
        match req {
            Request::FindOne { kind, key } => Ok(Reply::Found(self.find(kind, &key))),
            Request::FindAll { kind } => Ok(Reply::Listed(match kind {
                EntityKind::Collection => Rows::Collections(self.collections.clone()),
                EntityKind::Notebook => Rows::Notebooks(self.notebooks.clone()),
                EntityKind::Note => Rows::Notes(self.notes.clone()),
                EntityKind::Tag => Rows::Tags(self.tags.clone()),
            })),
            Request::NotesOfNotebook { notebook } => Ok(Reply::Listed(Rows::Notes(
                self.notes.iter().filter(|n| n.notebook_name == notebook.name).cloned().collect(),
            ))),
            Request::NoteTagsOfNote { note_name } => Ok(Reply::Listed(Rows::NoteTags(
                self.note_tags.iter().filter(|l| l.note_name == note_name).cloned().collect(),
            ))),
            Request::Insert { row } => {
                match &row {
                    Row::Collection(c) => {
                        if self.find(EntityKind::Collection, &c.name).is_some() {
                            return Err(refused("duplicate collection"));
                        }
                        self.collections.push(c.clone());
                    }
                    Row::Notebook(nb) => {
                        if self.find(EntityKind::Notebook, &nb.name).is_some()
                            || self.find(EntityKind::Collection, &nb.collection_name).is_none()
                        {
                            return Err(refused("notebook key"));
                        }
                        self.notebooks.push(nb.clone());
                    }
                    Row::Note(n) => {
                        if self.find(EntityKind::Note, &n.name).is_some()
                            || self.find(EntityKind::Notebook, &n.notebook_name).is_none()
                        {
                            return Err(refused("note key"));
                        }
                        self.notes.push(n.clone());
                    }
                    Row::Tag(t) => {
                        if self.tags.contains(t) {
                            return Err(refused("duplicate tag"));
                        }
                        self.tags.push(*t);
                    }
                    Row::NoteTag(l) => {
                        if self.note_tags.iter().any(|x| x.note_name == l.note_name && x.tag_name == l.tag_name)
                            || self.find(EntityKind::Note, &l.note_name).is_none()
                            || self.find(EntityKind::Tag, &l.tag_name).is_none()
                        {
                            return Err(refused("link key"));
                        }
                        self.note_tags.push(l.clone());
                    }
                }
                Ok(Reply::Saved(row))
            }
            Request::UpdateCollection { current, name, description } => {
                let pos = self.collections.iter().position(|c| c.name == current.name).ok_or(refused("missing"))?;
                if let Some(n) = &name {
                    if *n != current.name
                        && (self.find(EntityKind::Collection, n).is_some()
                            || self.notebooks.iter().any(|nb| nb.collection_name == current.name))
                    {
                        return Err(refused("collection key"));
                    }
                }
                let row = &mut self.collections[pos];
                if let Some(n) = name {
                    row.name = n;
                }
                if let Some(d) = description {
                    row.description = d;
                }
                Ok(Reply::Saved(Row::Collection(row.clone())))
            }
            Request::UpdateNotebook { current, name, description, collection_name } => {
                let pos = self.notebooks.iter().position(|c| c.name == current.name).ok_or(refused("missing"))?;
                if let Some(n) = &name {
                    if *n != current.name
                        && (self.find(EntityKind::Notebook, n).is_some()
                            || self.notes.iter().any(|note| note.notebook_name == current.name))
                    {
                        return Err(refused("notebook key"));
                    }
                }
                if let Some(c) = &collection_name {
                    if self.find(EntityKind::Collection, c).is_none() {
                        return Err(refused("notebook collection"));
                    }
                }
                let row = &mut self.notebooks[pos];
                if let Some(n) = name {
                    row.name = n;
                }
                if let Some(d) = description {
                    row.description = d;
                }
                if let Some(c) = collection_name {
                    row.collection_name = c;
                }
                Ok(Reply::Saved(Row::Notebook(row.clone())))
            }
            Request::UpdateNote { current, name, topic, content } => {
                let pos = self.notes.iter().position(|c| c.name == current.name).ok_or(refused("missing"))?;
                if let Some(n) = &name {
                    if *n != current.name
                        && (self.find(EntityKind::Note, n).is_some()
                            || self.note_tags.iter().any(|l| l.note_name == current.name))
                    {
                        return Err(refused("note key"));
                    }
                }
                let row = &mut self.notes[pos];
                if let Some(n) = name {
                    row.name = n;
                }
                if let Some(t) = topic {
                    row.topic = t;
                }
                if let Some(c) = content {
                    row.content = c;
                }
                Ok(Reply::Saved(Row::Note(row.clone())))
            }
            Request::Delete { row } => {
                match row {
                    Row::Collection(c) => {
                        if self.notebooks.iter().any(|nb| nb.collection_name == c.name) {
                            return Err(refused("collection in use"));
                        }
                        self.collections.retain(|x| x.name != c.name);
                    }
                    Row::Notebook(nb) => {
                        if self.notes.iter().any(|n| n.notebook_name == nb.name) {
                            return Err(refused("notebook in use"));
                        }
                        self.notebooks.retain(|x| x.name != nb.name);
                    }
                    Row::Note(n) => {
                        if self.note_tags.iter().any(|l| l.note_name == n.name) {
                            return Err(refused("note in use"));
                        }
                        self.notes.retain(|x| x.name != n.name);
                    }
                    Row::Tag(t) => {
                        if self.note_tags.iter().any(|l| l.tag_name == t.tag.to_value()) {
                            return Err(refused("tag in use"));
                        }
                        self.tags.retain(|x| *x != t);
                    }
                    Row::NoteTag(l) => {
                        self.note_tags.retain(|x| !(x.note_name == l.note_name && x.tag_name == l.tag_name));
                    }
                }
                Ok(Reply::Removed)
            }
            Request::DeleteNoteTagsOfNote { note_name } => {
                self.note_tags.retain(|l| l.note_name != note_name);
                Ok(Reply::Removed)
            }
            Request::DeleteAll { table } => {
                let blocked = match table {
                    Table::Collection => !self.notebooks.is_empty(),
                    Table::Notebook => !self.notes.is_empty(),
                    Table::Note | Table::Tag => !self.note_tags.is_empty(),
                    Table::NoteTag => false,
                };
                if blocked {
                    return Err(refused("rows in use"));
                }
                match table {
                    Table::Collection => self.collections.clear(),
                    Table::Notebook => self.notebooks.clear(),
                    Table::Note => self.notes.clear(),
                    Table::Tag => self.tags.clear(),
                    Table::NoteTag => self.note_tags.clear(),
                }
                Ok(Reply::Removed)
            }
        }
    }
}

fn drive<T>(db: &mut MemDb, first: Request, mut resume: impl FnMut(Result<Reply, DbError>) -> Step<T>) -> Result<T, DbError> {
    let mut request = first;
    loop {
        let reply = db.serve(request);
        match resume(reply) {
            Step::Ask(next) => request = next,
            Step::Done(result) => return result,
        }
    }
}

fn run_get_all(db: &mut MemDb, kind: EntityKind) -> Result<GetAllQueryResult, DbError> {
    let (mut op, first) = get_all(kind);
    drive(db, first, |r| op.resume(r))
}

fn run_get_by_name(db: &mut MemDb, kind: EntityKind, name: &str) -> Result<Option<GetByNameQueryResult>, DbError> {
    let (mut op, first) = get_by_name(kind, name);
    drive(db, first, |r| op.resume(r))
}

fn run_create(db: &mut MemDb, data: NewEntityData) -> Result<CreateResult, DbError> {
    let (mut op, first) = create_one(data);
    drive(db, first, |r| op.resume(r))
}

fn run_update(db: &mut MemDb, current_name: &str, data: UpdateEntityData) -> Result<Option<UpdateResult>, DbError> {
    let (mut op, first) = update_one(current_name, data);
    drive(db, first, |r| op.resume(r))
}

fn run_delete(db: &mut MemDb, kind: EntityKind, name: &str) -> Result<bool, DbError> {
    let (mut op, first) = delete_one(kind, name);
    drive(db, first, |r| op.resume(r))
}

struct TestData {
    collection: collection::Model,
    notebook: notebook::Model,
    note: note::Model,
    tag: tag::Model,
}

fn insert_test_data(db: &mut MemDb) -> TestData {
    let CreateResult::Collection(collection) = run_create(
        db,
        NewEntityData::Collection {
            name: "My Collection".to_string(),
            description: "A collection of study notes".to_string(),
        },
    )
    .unwrap() else {
        panic!("expected Collection")
    };
    let CreateResult::Notebook(notebook) = run_create(
        db,
        NewEntityData::Notebook {
            name: "My Notebook".to_string(),
            description: r#"{"text":"A notebook for my study notes"}"#.to_string(),
            collection_name: collection.name.clone(),
        },
    )
    .unwrap() else {
        panic!("expected Notebook")
    };
    let CreateResult::Note(note) = run_create(
        db,
        NewEntityData::Note {
            name: "My First Note".to_string(),
            topic: "General".to_string(),
            content: r#"{"text":"This is the content of my first note."}"#.to_string(),
            notebook_name: notebook.name.clone(),
        },
    )
    .unwrap() else {
        panic!("expected Note")
    };
    let CreateResult::Tag(tag) = run_create(db, NewEntityData::Tag { tag: Tag::Important }).unwrap() else {
        panic!("expected Tag")
    };
    run_create(
        db,
        NewEntityData::NoteTag { note_name: note.name.clone(), tag_name: Tag::Important.to_value() },
    )
    .unwrap();
    TestData { collection, notebook, note, tag }
}

fn setup() -> (MemDb, TestData) {
    let mut db = MemDb::default();
    let data = insert_test_data(&mut db);
    (db, data)
}

#[test]
fn test_get_all() {
    let (mut db, data) = setup();

    let GetAllQueryResult::Collections(collections) = run_get_all(&mut db, EntityKind::Collection).unwrap() else {
        panic!("expected Collections")
    };
    assert!(!collections.is_empty());
    assert!(collections.iter().any(|c| c.name == data.collection.name));

    let GetAllQueryResult::Notebooks(notebooks) = run_get_all(&mut db, EntityKind::Notebook).unwrap() else {
        panic!("expected Notebooks")
    };
    assert!(!notebooks.is_empty());
    assert!(notebooks.iter().any(|n| n.name == data.notebook.name));

    let GetAllQueryResult::Notes(notes) = run_get_all(&mut db, EntityKind::Note).unwrap() else {
        panic!("expected Notes")
    };
    assert!(!notes.is_empty());
    assert!(notes.iter().any(|n| n.name == data.note.name));

    let GetAllQueryResult::Tags(tags) = run_get_all(&mut db, EntityKind::Tag).unwrap() else {
        panic!("expected Tags")
    };
    assert!(!tags.is_empty());
    assert!(tags.iter().any(|t| t.tag == data.tag.tag));
}

#[test]
fn test_get_by_name() {
    let (mut db, data) = setup();

    let Some(GetByNameQueryResult::Collection(collection)) =
        run_get_by_name(&mut db, EntityKind::Collection, &data.collection.name).unwrap()
    else {
        panic!("expected Collection")
    };
    assert_eq!(collection.name, data.collection.name);

    let Some(GetByNameQueryResult::Notebook(notebook)) =
        run_get_by_name(&mut db, EntityKind::Notebook, &data.notebook.name).unwrap()
    else {
        panic!("expected Notebook")
    };
    assert_eq!(notebook.name, data.notebook.name);
    assert!(!notebook.notes.is_empty());
    assert!(notebook.notes.iter().any(|n| n.name == data.note.name));

    let Some(GetByNameQueryResult::Note(note)) = run_get_by_name(&mut db, EntityKind::Note, &data.note.name).unwrap()
    else {
        panic!("expected Note")
    };
    assert_eq!(note.name, data.note.name);
    assert_eq!(note.collection_name, data.collection.name);
    assert!(!note.tags.is_empty());
    assert!(note.tags.iter().any(|t| *t == data.tag.tag));

    let Some(GetByNameQueryResult::Tag(tag)) =
        run_get_by_name(&mut db, EntityKind::Tag, &data.tag.tag.to_value()).unwrap()
    else {
        panic!("expected Tag")
    };
    assert_eq!(tag.tag, data.tag.tag);
}

#[test]
fn test_create_collection() {
    let mut db = MemDb::default();
    let result = run_create(
        &mut db,
        NewEntityData::Collection {
            name: "New Collection".to_string(),
            description: "A brand new collection".to_string(),
        },
    )
    .unwrap();
    let CreateResult::Collection(col) = result else {
        panic!("expected Collection")
    };
    assert_eq!(col.name, "New Collection");
    assert_eq!(col.description, "A brand new collection");
}

#[test]
fn test_create_notebook() {
    let (mut db, data) = setup();
    let result = run_create(
        &mut db,
        NewEntityData::Notebook {
            name: "New Notebook".to_string(),
            description: r#"{"text":"A new notebook"}"#.to_string(),
            collection_name: data.collection.name.clone(),
        },
    )
    .unwrap();
    let CreateResult::Notebook(nb) = result else {
        panic!("expected Notebook")
    };
    assert_eq!(nb.name, "New Notebook");
    assert_eq!(nb.collection_name, data.collection.name);
}

#[test]
fn new_test_create_note() {
    let (mut db, data) = setup();
    let result = run_create(
        &mut db,
        NewEntityData::Note {
            name: "New Note".to_string(),
            topic: "Testing".to_string(),
            content: r#"{"text":"New note content"}"#.to_string(),
            notebook_name: data.notebook.name.clone(),
        },
    )
    .unwrap();
    let CreateResult::Note(n) = result else {
        panic!("expected Note")
    };
    assert_eq!(n.name, "New Note");
    assert_eq!(n.topic, "Testing");
    assert_eq!(n.notebook_name, data.notebook.name);
}

#[test]
fn new_test_create_tag() {
    let mut db = MemDb::default();
    let result = run_create(&mut db, NewEntityData::Tag { tag: Tag::Async }).unwrap();
    let CreateResult::Tag(t) = result else {
        panic!("expected Tag")
    };
    assert_eq!(t.tag, Tag::Async);
}

#[test]
fn test_create_note_tag() {
    let (mut db, data) = setup();
    run_create(&mut db, NewEntityData::Tag { tag: Tag::Async }).unwrap();
    let result = run_create(
        &mut db,
        NewEntityData::NoteTag { note_name: data.note.name.clone(), tag_name: Tag::Async.to_value() },
    )
    .unwrap();
    let CreateResult::NoteTag(nt) = result else {
        panic!("expected NoteTag")
    };
    assert_eq!(nt.note_name, data.note.name);
}

#[test]
fn test_update_collection() {
    let (mut db, data) = setup();
    let result = run_update(
        &mut db,
        &data.collection.name,
        UpdateEntityData::Collection { name: None, description: Some("Updated description".to_string()) },
    )
    .unwrap();
    let Some(UpdateResult::Collection(col)) = result else {
        panic!("expected Collection")
    };
    assert_eq!(col.name, data.collection.name);
    assert_eq!(col.description, "Updated description");
}

#[test]
fn test_update_notebook() {
    let (mut db, data) = setup();
    let result = run_update(
        &mut db,
        &data.notebook.name,
        UpdateEntityData::Notebook {
            name: None,
            description: Some(r#"{"text":"Updated notebook"}"#.to_string()),
            collection_name: None,
        },
    )
    .unwrap();
    let Some(UpdateResult::Notebook(nb)) = result else {
        panic!("expected Notebook")
    };
    assert_eq!(nb.name, data.notebook.name);
    assert_eq!(nb.description, r#"{"text":"Updated notebook"}"#);
}

#[test]
fn test_update_note() {
    let (mut db, data) = setup();
    let result = run_update(
        &mut db,
        &data.note.name,
        UpdateEntityData::Note { name: None, topic: Some("Updated Topic".to_string()), content: None, tags: None },
    )
    .unwrap();
    let Some(UpdateResult::Note(n)) = result else {
        panic!("expected Note")
    };
    assert_eq!(n.name, data.note.name);
    assert_eq!(n.topic, "Updated Topic");
}

#[test]
fn test_update_note_tags() {
    let (mut db, data) = setup();
    let result = run_update(
        &mut db,
        &data.note.name,
        UpdateEntityData::Note {
            name: None,
            topic: None,
            content: None,
            tags: Some(vec![Tag::Async.to_value(), Tag::Testing.to_value()]),
        },
    )
    .unwrap();
    let Some(UpdateResult::Note(n)) = result else {
        panic!("expected Note")
    };
    assert_eq!(n.name, data.note.name);

    let note_tags: Vec<&note_tag::Model> = db.note_tags.iter().filter(|nt| nt.note_name == data.note.name).collect();
    assert_eq!(note_tags.len(), 2);
    let tag_names: Vec<&str> = note_tags.iter().map(|nt| nt.tag_name.as_str()).collect();
    assert!(tag_names.contains(&Tag::Async.to_value().as_str()));
    assert!(tag_names.contains(&Tag::Testing.to_value().as_str()));
}

#[test]
fn test_update_nonexistent() {
    let mut db = MemDb::default();
    let result = run_update(
        &mut db,
        "Does Not Exist",
        UpdateEntityData::Collection { name: None, description: Some("test".to_string()) },
    )
    .unwrap();
    assert!(result.is_none());
}

#[test]
fn test_delete_collection() {
    let (mut db, data) = setup();
    db.note_tags.clear();
    run_delete(&mut db, EntityKind::Note, &data.note.name).unwrap();
    run_delete(&mut db, EntityKind::Notebook, &data.notebook.name).unwrap();
    let deleted = run_delete(&mut db, EntityKind::Collection, &data.collection.name).unwrap();
    assert!(deleted);
    let GetAllQueryResult::Collections(rows) = run_get_all(&mut db, EntityKind::Collection).unwrap() else {
        panic!("expected Collections")
    };
    assert!(rows.is_empty());
}

#[test]
fn test_delete_note() {
    let (mut db, data) = setup();
    db.note_tags.clear();
    let deleted = run_delete(&mut db, EntityKind::Note, &data.note.name).unwrap();
    assert!(deleted);
    let GetAllQueryResult::Notes(rows) = run_get_all(&mut db, EntityKind::Note).unwrap() else {
        panic!("expected Notes")
    };
    assert!(rows.is_empty());
}

#[test]
fn test_delete_nonexistent() {
    let mut db = MemDb::default();
    let deleted = run_delete(&mut db, EntityKind::Collection, "Does Not Exist").unwrap();
    assert!(!deleted);
}

#[test]
fn note_test_create_note() {
    let mut db = MemDb::default();
    let CreateResult::Collection(inserted_collection) = run_create(
        &mut db,
        NewEntityData::Collection {
            name: "Test Collection".to_string(),
            description: "A collection for testing".to_string(),
        },
    )
    .unwrap() else {
        panic!("expected Collection")
    };
    let CreateResult::Notebook(inserted_notebook) = run_create(
        &mut db,
        NewEntityData::Notebook {
            name: "Test Notebook".to_string(),
            description: r#""A notebook for testing""#.to_string(),
            collection_name: inserted_collection.name.clone(),
        },
    )
    .unwrap() else {
        panic!("expected Notebook")
    };
    let CreateResult::Note(inserted_note) = run_create(
        &mut db,
        NewEntityData::Note {
            name: "Test Note".to_string(),
            topic: "Testing".to_string(),
            content: r#"{"text":"This is a test note"}"#.to_string(),
            notebook_name: inserted_notebook.name.clone(),
        },
    )
    .unwrap() else {
        panic!("expected Note")
    };
    assert_eq!(inserted_note.name, "Test Note");
    assert_eq!(inserted_note.topic, "Testing");
    assert_eq!(inserted_note.content, r#"{"text":"This is a test note"}"#);
    assert_eq!(inserted_note.notebook_name, inserted_notebook.name);
}

#[test]
fn tag_test_create_tag() {
    let mut db = MemDb::default();
    run_create(
        &mut db,
        NewEntityData::Collection {
            name: "Test Collection".to_string(),
            description: "A collection for testing".to_string(),
        },
    )
    .unwrap();
    run_create(
        &mut db,
        NewEntityData::Notebook {
            name: "Test Notebook".to_string(),
            description: r#"{"text":"A notebook for testing"}"#.to_string(),
            collection_name: "Test Collection".to_string(),
        },
    )
    .unwrap();
    run_create(
        &mut db,
        NewEntityData::Note {
            name: "Test Note".to_string(),
            topic: "Testing".to_string(),
            content: r#"{"text":"This is a test note"}"#.to_string(),
            notebook_name: "Test Notebook".to_string(),
        },
    )
    .unwrap();
    let CreateResult::Tag(inserted_tag) = run_create(&mut db, NewEntityData::Tag { tag: Tag::Important }).unwrap() else {
        panic!("expected Tag")
    };
    assert_eq!(inserted_tag.tag, Tag::Important);
    run_create(
        &mut db,
        NewEntityData::NoteTag { note_name: "Test Note".to_string(), tag_name: Tag::Important.to_value() },
    )
    .unwrap();
}

#[test]
fn test_database_integration() {
    let mut db = MemDb::default();
    let (mut op, first) = remove_sample_data();
    drive(&mut db, first, |r| op.resume(r)).unwrap();
    let data = insert_test_data(&mut db);
    assert_eq!(data.collection.name, "My Collection");
    assert_eq!(data.notebook.name, "My Notebook");
    assert_eq!(data.note.name, "My First Note");
    assert_eq!(data.tag.tag, Tag::Important);
    let (mut op, first) = remove_sample_data();
    drive(&mut db, first, |r| op.resume(r)).unwrap();
    assert!(db.collections.is_empty() && db.notebooks.is_empty() && db.notes.is_empty());
    assert!(db.tags.is_empty() && db.note_tags.is_empty());
}

// Scenarios of the laws and further cases.

#[test]
fn create_then_get_reads_back() {
    let mut db = MemDb::default();
    run_create(&mut db, NewEntityData::Collection { name: "C".to_string(), description: "d".to_string() }).unwrap();
    run_create(
        &mut db,
        NewEntityData::Notebook { name: "NB".to_string(), description: "{}".to_string(), collection_name: "C".to_string() },
    )
    .unwrap();
    run_create(
        &mut db,
        NewEntityData::Note {
            name: "N".to_string(),
            topic: "T".to_string(),
            content: "[1]".to_string(),
            notebook_name: "NB".to_string(),
        },
    )
    .unwrap();
    let Some(GetByNameQueryResult::Note(detail)) = run_get_by_name(&mut db, EntityKind::Note, "N").unwrap() else {
        panic!("expected Note")
    };
    assert_eq!(detail.topic, "T");
    assert_eq!(detail.content, "[1]");
    assert_eq!(detail.notebook_name, "NB");
    assert_eq!(detail.collection_name, "C");
    assert!(detail.tags.is_empty());
    let Some(GetByNameQueryResult::Notebook(nb)) = run_get_by_name(&mut db, EntityKind::Notebook, "NB").unwrap() else {
        panic!("expected Notebook")
    };
    assert_eq!(nb.description, "{}");
    assert_eq!(nb.collection_name, "C");
    assert_eq!(nb.notes.len(), 1);
    assert_eq!(nb.notes[0].name, "N");
    assert_eq!(nb.notes[0].topic, "T");
}

#[test]
fn get_by_name_missing_gives_none() {
    let (mut db, _) = setup();
    for kind in [EntityKind::Collection, EntityKind::Notebook, EntityKind::Note, EntityKind::Tag] {
        assert!(run_get_by_name(&mut db, kind, "nothing").unwrap().is_none());
    }
}

#[test]
fn note_detail_skips_missing_tags_and_keeps_link_order() {
    let (mut db, data) = setup();
    run_create(&mut db, NewEntityData::Tag { tag: Tag::Testing }).unwrap();
    run_create(
        &mut db,
        NewEntityData::NoteTag { note_name: data.note.name.clone(), tag_name: Tag::Testing.to_value() },
    )
    .unwrap();
    // A link whose tag is gone from the tag table is skipped.
    db.note_tags.push(note_tag::Model { note_name: data.note.name.clone(), tag_name: "Vanished".to_string() });
    let Some(GetByNameQueryResult::Note(detail)) = run_get_by_name(&mut db, EntityKind::Note, &data.note.name).unwrap()
    else {
        panic!("expected Note")
    };
    assert_eq!(detail.tags, vec![Tag::Important, Tag::Testing]);
}

#[test]
fn note_detail_without_notebook_has_empty_collection() {
    let (mut db, data) = setup();
    db.notebooks.clear();
    let Some(GetByNameQueryResult::Note(detail)) = run_get_by_name(&mut db, EntityKind::Note, &data.note.name).unwrap()
    else {
        panic!("expected Note")
    };
    assert_eq!(detail.collection_name, "");
}

#[test]
fn update_changes_only_given_columns() {
    let (mut db, data) = setup();
    let Some(UpdateResult::Note(n)) = run_update(
        &mut db,
        &data.note.name,
        UpdateEntityData::Note { name: None, topic: None, content: Some("42".to_string()), tags: None },
    )
    .unwrap() else {
        panic!("expected Note")
    };
    assert_eq!(n.topic, data.note.topic);
    assert_eq!(n.content, "42");
    assert_eq!(n.notebook_name, data.note.notebook_name);
    // The tags are left alone.
    assert_eq!(db.note_tags.len(), 1);
}

#[test]
fn update_tags_trims_creates_and_replaces() {
    let (mut db, data) = setup();
    let result = run_update(
        &mut db,
        &data.note.name,
        UpdateEntityData::Note {
            name: None,
            topic: None,
            content: None,
            tags: Some(vec!["  Data Structures ".to_string(), "Important".to_string()]),
        },
    )
    .unwrap();
    assert!(matches!(result, Some(UpdateResult::Note(_))));
    let names: Vec<String> = db.note_tags.iter().map(|l| l.tag_name.clone()).collect();
    assert_eq!(names, vec!["Data Structures".to_string(), "Important".to_string()]);
    assert!(db.tags.contains(&tag::Model { tag: Tag::DataStructures }));
    assert_eq!(db.tags.iter().filter(|t| t.tag == Tag::Important).count(), 1);
}

#[test]
fn update_tags_with_empty_list_removes_links() {
    let (mut db, data) = setup();
    run_update(
        &mut db,
        &data.note.name,
        UpdateEntityData::Note { name: None, topic: None, content: None, tags: Some(vec![]) },
    )
    .unwrap();
    assert!(db.note_tags.is_empty());
}

#[test]
fn update_unknown_tag_fails_after_earlier_links() {
    let (mut db, data) = setup();
    let err = run_update(
        &mut db,
        &data.note.name,
        UpdateEntityData::Note {
            name: None,
            topic: None,
            content: None,
            tags: Some(vec!["Async".to_string(), "Cooking".to_string(), "Testing".to_string()]),
        },
    )
    .unwrap_err();
    let DbError::Custom(message) = err else {
        panic!("expected a custom error")
    };
    let valid: Vec<String> = Tag::iter().iter().map(|t| t.to_value()).collect();
    assert_eq!(message, format!("Unknown tag 'Cooking'. Valid tags: {}", valid.join(", ")));
    let names: Vec<String> = db.note_tags.iter().map(|l| l.tag_name.clone()).collect();
    assert_eq!(names, vec!["Async".to_string()]);
}

#[test]
fn delete_refused_by_database_propagates() {
    let (mut db, data) = setup();
    let err = run_delete(&mut db, EntityKind::Collection, &data.collection.name).unwrap_err();
    assert!(matches!(err, DbError::Backend(_)));
    assert_eq!(db.collections.len(), 1);
}

#[test]
fn delete_tag_by_its_text() {
    let mut db = MemDb::default();
    run_create(&mut db, NewEntityData::Tag { tag: Tag::MachineLearning }).unwrap();
    assert!(run_delete(&mut db, EntityKind::Tag, "Machine Learning").unwrap());
    assert!(db.tags.is_empty());
    assert!(!run_delete(&mut db, EntityKind::Tag, "Machine Learning").unwrap());
}

#[test]
fn create_duplicate_fails() {
    let (mut db, data) = setup();
    let err = run_create(
        &mut db,
        NewEntityData::Collection { name: data.collection.name.clone(), description: "again".to_string() },
    );
    assert!(matches!(err, Err(DbError::Backend(_))));
}

#[test]
fn sample_data_inserts_and_removes() {
    let mut db = MemDb::default();
    let (mut op, first) = insert_sample_data();
    drive(&mut db, first, |r| op.resume(r)).unwrap();
    assert_eq!(db.collections.len(), 3);
    assert_eq!(db.notebooks.len(), 3);
    assert_eq!(db.notes.len(), 3);
    assert_eq!(db.tags, vec![tag::Model { tag: Tag::Important }]);
    assert_eq!(db.note_tags.len(), 3);
    assert_eq!(db.notebooks[1].collection_name, "My Collection 2");
    assert_eq!(db.notes[2].content, "\"This is the content of my first note 3.\"");
    assert_eq!(db.note_tags[0].note_name, "My First Note 1");
    assert_eq!(db.requests.len(), 13);
    let (mut op, first) = remove_sample_data();
    drive(&mut db, first, |r| op.resume(r)).unwrap();
    assert!(db.collections.is_empty() && db.notes.is_empty() && db.note_tags.is_empty());
}

#[test]
fn sample_data_stops_at_first_failure() {
    let mut db = MemDb::default();
    db.collections.push(collection::Model { name: "My Collection 2".to_string(), description: String::new() });
    let (mut op, first) = insert_sample_data();
    let err = drive(&mut db, first, |r| op.resume(r));
    assert!(err.is_err());
    assert_eq!(db.requests.len(), 2);
    assert_eq!(db.collections.len(), 2);
}

#[test]
fn update_renames_collection_to_free_name() {
    let mut db = MemDb::default();
    run_create(
        &mut db,
        NewEntityData::Collection { name: "Old".to_string(), description: "kept".to_string() },
    )
    .unwrap();
    let result = run_update(
        &mut db,
        "Old",
        UpdateEntityData::Collection { name: Some("New".to_string()), description: None },
    )
    .unwrap();
    let Some(UpdateResult::Collection(c)) = result else {
        panic!("expected Collection")
    };
    assert_eq!(c.name, "New");
    assert_eq!(c.description, "kept");
    assert!(run_get_by_name(&mut db, EntityKind::Collection, "Old").unwrap().is_none());
    assert!(matches!(
        run_get_by_name(&mut db, EntityKind::Collection, "New").unwrap(),
        Some(GetByNameQueryResult::Collection(ref m)) if m.name == "New" && m.description == "kept"
    ));
    assert_eq!(db.collections.len(), 1);
}

#[test]
fn update_rename_refused_when_referred_or_taken() {
    let (mut db, data) = setup();
    let referred = run_update(
        &mut db,
        &data.collection.name,
        UpdateEntityData::Collection { name: Some("Elsewhere".to_string()), description: None },
    );
    assert!(matches!(referred, Err(DbError::Backend(_))));
    run_create(
        &mut db,
        NewEntityData::Collection { name: "Second".to_string(), description: "d".to_string() },
    )
    .unwrap();
    let taken = run_update(
        &mut db,
        "Second",
        UpdateEntityData::Collection { name: Some(data.collection.name.clone()), description: None },
    );
    assert!(matches!(taken, Err(DbError::Backend(_))));
    assert!(run_get_by_name(&mut db, EntityKind::Collection, "Second").unwrap().is_some());
}

#[test]
fn update_renames_note_and_links_tags_under_new_name() {
    let (mut db, data) = setup();
    db.note_tags.clear();
    let result = run_update(
        &mut db,
        &data.note.name,
        UpdateEntityData::Note {
            name: Some("Renamed Note".to_string()),
            topic: None,
            content: None,
            tags: Some(vec![" Testing ".to_string()]),
        },
    )
    .unwrap();
    let Some(UpdateResult::Note(n)) = result else {
        panic!("expected Note")
    };
    assert_eq!(n.name, "Renamed Note");
    assert_eq!(n.topic, data.note.topic);
    assert!(run_get_by_name(&mut db, EntityKind::Note, &data.note.name).unwrap().is_none());
    assert_eq!(db.note_tags.len(), 1);
    assert_eq!(db.note_tags[0].note_name, "Renamed Note");
    assert_eq!(db.note_tags[0].tag_name, Tag::Testing.to_value());
}

fn snapshot(db: &MemDb) -> String {
    format!("{:?} {:?} {:?} {:?} {:?}", db.collections, db.notebooks, db.notes, db.tags, db.note_tags)
}

#[test]
fn create_then_delete_restores_store() {
    let (mut db, data) = setup();
    let before = snapshot(&db);
    run_create(&mut db, NewEntityData::Tag { tag: Tag::Async }).unwrap();
    assert!(run_delete(&mut db, EntityKind::Tag, &Tag::Async.to_value()).unwrap());
    assert_eq!(snapshot(&db), before);
    run_create(
        &mut db,
        NewEntityData::Note {
            name: "Scratch".to_string(),
            topic: "T".to_string(),
            content: "{}".to_string(),
            notebook_name: data.notebook.name.clone(),
        },
    )
    .unwrap();
    assert!(run_delete(&mut db, EntityKind::Note, "Scratch").unwrap());
    assert_eq!(snapshot(&db), before);
}

#[test]
fn update_tags_trims_unicode_white_space() {
    let (mut db, data) = setup();
    run_update(
        &mut db,
        &data.note.name,
        UpdateEntityData::Note {
            name: None,
            topic: None,
            content: None,
            tags: Some(vec!["\u{3000}\tAsync\u{a0}\u{2028}".to_string(), "Te sting".to_string()]),
        },
    )
    .unwrap_err();
    assert_eq!(db.note_tags.len(), 1);
    assert_eq!(db.note_tags[0].tag_name, Tag::Async.to_value());
}
