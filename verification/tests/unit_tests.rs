// Single steps of the operations, fed replies by hand, and the helpers
// around them.

use database::cli::{plan, CollectionArgs, Commands, NoteArgs, NotebookArgs, Plan, TagArgs};
use database::connection::{set_db_options, LogLevel};
use database::crud::delete::delete_one;
use database::crud::get::{get_all, get_by_name, summarize, GetAllQueryResult};
use database::crud::new::{create_one, CreateResult, NewEntityData};
use database::crud::query::{DbError, Reply, Request, Row, Rows, Step};
use database::crud::update::{update_one, UpdateEntityData};
use database::crud::EntityKind;
use database::json::json_or_text;
use database::models::taxonomy::{Category, Tag};
use database::models::{collection, note, note_tag};

fn collection_args() -> CollectionArgs {
    CollectionArgs { all: false, show: None, new: false, update: None, delete: None, name: None, description: None }
}

fn note_args() -> NoteArgs {
    NoteArgs {
        all: false,
        show: None,
        new: false,
        update: None,
        delete: None,
        name: None,
        topic: None,
        content: None,
        notebook: None,
    }
}

fn a_note(name: &str) -> note::Model {
    note::Model {
        name: name.to_string(),
        topic: "General".to_string(),
        content: "{}".to_string(),
        notebook_name: "NB".to_string(),
    }
}

#[test]
fn tag_values_round_trip() {
    let all = Tag::iter();
    assert_eq!(all.len(), 24);
    for t in &all {
        assert_eq!(Tag::from_value(&t.to_value()), Some(*t));
    }
    assert_eq!(Tag::WebDevelopment.to_value(), "Web Development");
    assert_eq!(Tag::MedicalIndustry.to_value(), "Medical Industry");
    assert_eq!(Tag::from_value("Async"), Some(Tag::Async));
    assert_eq!(Tag::from_value("async"), None);
    assert_eq!(Tag::from_value(" Async"), None);
}

#[test]
fn tag_order_and_valid_values() {
    let all = Tag::iter();
    assert_eq!(all[0], Tag::Important);
    assert_eq!(all[23], Tag::MedicalIndustry);
    let text = Tag::valid_values();
    assert!(text.starts_with("Important, Async, Web Development, "));
    assert!(text.ends_with("Medical Software, Medical Industry"));
    assert_eq!(text.matches(", ").count(), 23);
}

#[test]
fn category_values() {
    assert_eq!(Category::RustStandardLibrary.to_value(), "Rust Standard Library");
    assert_eq!(Category::CratesIo.to_value(), "Crates.io");
    assert_eq!(Category::LeetCode.to_value(), "LeetCode");
    assert_eq!(Category::Coursera.to_value(), "Coursera");
}

#[test]
fn json_input_kept_or_wrapped() {
    assert_eq!(json_or_text(r#"{"a":1}"#), r#"{"a":1}"#);
    assert_eq!(json_or_text("[1, 2]"), "[1,2]");
    assert_eq!(json_or_text(r#"{ "a" : [ true, null ] }"#), r#"{"a":[true,null]}"#);
    assert_eq!(json_or_text("hello"), r#"{"text":"hello"}"#);
    assert_eq!(json_or_text("say \"hi\""), r#"{"text":"say \"hi\""}"#);
    assert_eq!(json_or_text(""), r#"{"text":""}"#);
}

#[test]
fn json_text_escapes() {
    assert_eq!(json_or_text("a\\b"), r#"{"text":"a\\b"}"#);
    assert_eq!(json_or_text("tab\there\nline"), r#"{"text":"tab\there\nline"}"#);
    assert_eq!(json_or_text("\u{8}\u{c}\r"), r#"{"text":"\b\f\r"}"#);
    assert_eq!(json_or_text("\u{1}\u{1f}"), r#"{"text":"\u0001\u001f"}"#);
    assert_eq!(json_or_text("caf\u{e9} \u{7f}"), "{\"text\":\"caf\u{e9} \u{7f}\"}");
}

#[test]
fn db_options_from_url() {
    let o = set_db_options(Some("postgres://localhost/db".to_string())).unwrap();
    assert_eq!(o.url, "postgres://localhost/db");
    assert_eq!(o.max_connections, 100);
    assert_eq!(o.min_connections, 5);
    assert_eq!(o.connect_timeout_secs, 8);
    assert_eq!(o.acquire_timeout_secs, 8);
    assert_eq!(o.idle_timeout_secs, 8);
    assert_eq!(o.max_lifetime_secs, 8);
    assert!(!o.sqlx_logging);
    assert_eq!(o.sqlx_logging_level, LogLevel::Info);
    assert_eq!(o.schema_search_path, "studynotes");
}

#[test]
fn db_options_need_url() {
    let e = set_db_options(None).unwrap_err();
    assert_eq!(e.message, "DATABASE_URL must be set in .env file");
}

#[test]
fn plan_collections() {
    let mut a = collection_args();
    a.all = true;
    a.show = Some("x".to_string());
    assert!(matches!(plan(Commands::Collections(a)), Ok(Plan::All(EntityKind::Collection))));

    let mut a = collection_args();
    a.new = true;
    a.name = Some("C".to_string());
    let Err(message) = plan(Commands::Collections(a.clone())) else {
        panic!("expected a missing description")
    };
    assert_eq!(message, "--description is required when using --new");
    a.description = Some("D".to_string());
    let Ok(Plan::Create(NewEntityData::Collection { name, description })) = plan(Commands::Collections(a)) else {
        panic!("expected a collection to create")
    };
    assert_eq!((name.as_str(), description.as_str()), ("C", "D"));

    let mut a = collection_args();
    a.new = true;
    let Err(message) = plan(Commands::Collections(a)) else {
        panic!("expected a missing name")
    };
    assert_eq!(message, "--name is required when using --new");

    let mut a = collection_args();
    a.update = Some("Old".to_string());
    a.description = Some("New text".to_string());
    let Ok(Plan::Update(current, UpdateEntityData::Collection { name, description })) =
        plan(Commands::Collections(a))
    else {
        panic!("expected an update")
    };
    assert_eq!(current, "Old");
    assert_eq!(name, None);
    assert_eq!(description.as_deref(), Some("New text"));

    let mut a = collection_args();
    a.delete = Some("Gone".to_string());
    assert!(matches!(plan(Commands::Collections(a)), Ok(Plan::Delete(EntityKind::Collection, n)) if n == "Gone"));

    assert!(matches!(plan(Commands::Collections(collection_args())), Ok(Plan::Nothing)));
}

#[test]
fn plan_notebooks_wraps_description() {
    let a = NotebookArgs {
        all: false,
        show: None,
        new: true,
        update: None,
        delete: None,
        name: Some("NB".to_string()),
        description: Some("plain words".to_string()),
        collection: None,
    };
    let Err(message) = plan(Commands::Notebooks(a.clone())) else {
        panic!("expected a missing collection")
    };
    assert_eq!(message, "--collection is required when using --new");
    let mut a = a;
    a.collection = Some("C".to_string());
    let Ok(Plan::Create(NewEntityData::Notebook { name, description, collection_name })) = plan(Commands::Notebooks(a))
    else {
        panic!("expected a notebook to create")
    };
    assert_eq!(name, "NB");
    assert_eq!(description, r#"{"text":"plain words"}"#);
    assert_eq!(collection_name, "C");
}

#[test]
fn plan_notes() {
    let mut a = note_args();
    a.new = true;
    a.name = Some("N".to_string());
    a.topic = Some("T".to_string());
    let Err(message) = plan(Commands::Notes(a.clone())) else {
        panic!("expected a missing content")
    };
    assert_eq!(message, "--content is required when using --new");
    a.content = Some(r#"{"k":[1]}"#.to_string());
    let Err(message) = plan(Commands::Notes(a.clone())) else {
        panic!("expected a missing notebook")
    };
    assert_eq!(message, "--notebook is required when using --new");
    a.notebook = Some("NB".to_string());
    let Ok(Plan::Create(NewEntityData::Note { content, notebook_name, .. })) = plan(Commands::Notes(a)) else {
        panic!("expected a note to create")
    };
    assert_eq!(content, r#"{"k":[1]}"#);
    assert_eq!(notebook_name, "NB");

    let mut a = note_args();
    a.update = Some("N".to_string());
    a.content = Some("new body".to_string());
    let Ok(Plan::Update(_, UpdateEntityData::Note { content, tags, .. })) = plan(Commands::Notes(a)) else {
        panic!("expected an update")
    };
    assert_eq!(content.as_deref(), Some(r#"{"text":"new body"}"#));
    assert!(tags.is_none());

    let mut a = note_args();
    a.show = Some("N".to_string());
    assert!(matches!(plan(Commands::Notes(a)), Ok(Plan::Show(EntityKind::Note, n)) if n == "N"));
}

#[test]
fn plan_tags() {
    let a = TagArgs { all: false, show: None, new: Some("Security".to_string()), delete: None };
    assert!(matches!(plan(Commands::Tags(a)), Ok(Plan::Create(NewEntityData::Tag { tag: Tag::Security }))));
    let a = TagArgs { all: false, show: None, new: Some("Cooking".to_string()), delete: None };
    assert!(matches!(plan(Commands::Tags(a)), Ok(Plan::UnknownTag(v)) if v == "Cooking"));
    let a = TagArgs { all: true, show: None, new: None, delete: None };
    assert!(matches!(plan(Commands::Tags(a)), Ok(Plan::All(EntityKind::Tag))));
    let a = TagArgs { all: false, show: None, new: None, delete: Some("Async".to_string()) };
    assert!(matches!(plan(Commands::Tags(a)), Ok(Plan::Delete(EntityKind::Tag, v)) if v == "Async"));
}

#[test]
fn get_all_summarizes_notes() {
    let (mut op, first) = get_all(EntityKind::Note);
    assert!(matches!(first, Request::FindAll { kind: EntityKind::Note }));
    let step = op.resume(Ok(Reply::Listed(Rows::Notes(vec![a_note("A"), a_note("B")]))));
    let Step::Done(Ok(GetAllQueryResult::Notes(s))) = step else {
        panic!("expected summaries")
    };
    assert_eq!(s.len(), 2);
    assert_eq!((s[1].name.as_str(), s[1].topic.as_str(), s[1].notebook_name.as_str()), ("B", "General", "NB"));
    // A second reply is not expected.
    assert!(matches!(op.resume(Ok(Reply::Removed)), Step::Done(Err(DbError::Unexpected))));
}

#[test]
fn get_all_wrong_reply_is_unexpected() {
    let (mut op, _) = get_all(EntityKind::Tag);
    let step = op.resume(Ok(Reply::Listed(Rows::Notes(vec![]))));
    assert!(matches!(step, Step::Done(Err(DbError::Unexpected))));
}

#[test]
fn summarize_keeps_order() {
    let s = summarize(&vec![a_note("Z"), a_note("A")]);
    assert_eq!(s[0].name, "Z");
    assert_eq!(s[1].name, "A");
}

#[test]
fn failure_ends_each_operation() {
    let e = || Err(DbError::Backend("connection lost".to_string()));
    let (mut op, _) = get_by_name(EntityKind::Note, "N");
    assert!(matches!(op.resume(e()), Step::Done(Err(DbError::Backend(m))) if m == "connection lost"));
    let (mut op, _) = delete_one(EntityKind::Note, "N");
    assert!(matches!(op.resume(e()), Step::Done(Err(DbError::Backend(_)))));
    let (mut op, _) = update_one("N", UpdateEntityData::Collection { name: None, description: None });
    assert!(matches!(op.resume(e()), Step::Done(Err(DbError::Backend(_)))));
    let (mut op, _) = create_one(NewEntityData::Tag { tag: Tag::Async });
    assert!(matches!(op.resume(e()), Step::Done(Err(DbError::Backend(_)))));
}

#[test]
fn get_by_name_note_steps() {
    let (mut op, first) = get_by_name(EntityKind::Note, "N");
    assert!(matches!(first, Request::FindOne { kind: EntityKind::Note, ref key } if key == "N"));
    let step = op.resume(Ok(Reply::Found(Some(Row::Note(a_note("N"))))));
    assert!(matches!(step, Step::Ask(Request::NoteTagsOfNote { ref note_name }) if note_name == "N"));
    let links = vec![
        note_tag::Model { note_name: "N".to_string(), tag_name: "Async".to_string() },
        note_tag::Model { note_name: "N".to_string(), tag_name: "Gone".to_string() },
    ];
    let step = op.resume(Ok(Reply::Listed(Rows::NoteTags(links))));
    assert!(matches!(step, Step::Ask(Request::FindOne { kind: EntityKind::Tag, ref key }) if key == "Async"));
    let step = op.resume(Ok(Reply::Found(Some(Row::Tag(database::models::tag::Model { tag: Tag::Async })))));
    assert!(matches!(step, Step::Ask(Request::FindOne { kind: EntityKind::Tag, ref key }) if key == "Gone"));
    let step = op.resume(Ok(Reply::Found(None)));
    assert!(matches!(step, Step::Ask(Request::FindOne { kind: EntityKind::Notebook, ref key }) if key == "NB"));
    let step = op.resume(Ok(Reply::Found(None)));
    let Step::Done(Ok(Some(database::crud::get::GetByNameQueryResult::Note(d)))) = step else {
        panic!("expected the note")
    };
    assert_eq!(d.tags, vec![Tag::Async]);
    assert_eq!(d.collection_name, "");
}

#[test]
fn get_by_name_wrong_kind_is_unexpected() {
    let (mut op, _) = get_by_name(EntityKind::Collection, "C");
    let step = op.resume(Ok(Reply::Found(Some(Row::Note(a_note("C"))))));
    assert!(matches!(step, Step::Done(Err(DbError::Unexpected))));
}

#[test]
fn delete_steps() {
    let (mut op, first) = delete_one(EntityKind::Collection, "C");
    assert!(matches!(first, Request::FindOne { kind: EntityKind::Collection, ref key } if key == "C"));
    let c = collection::Model { name: "C".to_string(), description: "d".to_string() };
    let step = op.resume(Ok(Reply::Found(Some(Row::Collection(c)))));
    assert!(matches!(step, Step::Ask(Request::Delete { row: Row::Collection(ref m) }) if m.name == "C"));
    assert!(matches!(op.resume(Ok(Reply::Removed)), Step::Done(Ok(true))));
}

#[test]
fn update_note_steps_with_tags() {
    let (mut op, first) = update_one(
        "N",
        UpdateEntityData::Note {
            name: None,
            topic: Some("T2".to_string()),
            content: None,
            tags: Some(vec![" Testing ".to_string()]),
        },
    );
    assert!(matches!(first, Request::FindOne { kind: EntityKind::Note, .. }));
    let step = op.resume(Ok(Reply::Found(Some(Row::Note(a_note("N"))))));
    let Step::Ask(Request::UpdateNote { current, name, topic, content }) = step else {
        panic!("expected the update")
    };
    assert_eq!(current.name, "N");
    assert_eq!(name, None);
    assert_eq!(topic.as_deref(), Some("T2"));
    assert_eq!(content, None);
    let mut saved = a_note("N");
    saved.topic = "T2".to_string();
    let step = op.resume(Ok(Reply::Saved(Row::Note(saved))));
    assert!(matches!(step, Step::Ask(Request::DeleteNoteTagsOfNote { ref note_name }) if note_name == "N"));
    let step = op.resume(Ok(Reply::Removed));
    assert!(matches!(step, Step::Ask(Request::FindOne { kind: EntityKind::Tag, ref key }) if key == "Testing"));
    let step = op.resume(Ok(Reply::Found(None)));
    assert!(matches!(step, Step::Ask(Request::Insert { row: Row::Tag(t) }) if t.tag == Tag::Testing));
    let step = op.resume(Ok(Reply::Saved(Row::Tag(database::models::tag::Model { tag: Tag::Testing }))));
    assert!(matches!(step, Step::Ask(Request::Insert { row: Row::NoteTag(ref l) }) if l.note_name == "N" && l.tag_name == "Testing"));
    let link = note_tag::Model { note_name: "N".to_string(), tag_name: "Testing".to_string() };
    let step = op.resume(Ok(Reply::Saved(Row::NoteTag(link))));
    let Step::Done(Ok(Some(database::crud::update::UpdateResult::Note(n)))) = step else {
        panic!("expected the note")
    };
    assert_eq!(n.topic, "T2");
}

#[test]
fn update_renamed_note_links_under_new_name() {
    let (mut op, _) = update_one(
        "N",
        UpdateEntityData::Note { name: Some("M".to_string()), topic: None, content: None, tags: Some(vec![]) },
    );
    op.resume(Ok(Reply::Found(Some(Row::Note(a_note("N"))))));
    let step = op.resume(Ok(Reply::Saved(Row::Note(a_note("M")))));
    assert!(matches!(step, Step::Ask(Request::DeleteNoteTagsOfNote { ref note_name }) if note_name == "M"));
}

#[test]
fn create_returns_saved_row() {
    let (mut op, first) = create_one(NewEntityData::Collection { name: "C".to_string(), description: "d".to_string() });
    let Request::Insert { row: Row::Collection(m) } = first else {
        panic!("expected the insert")
    };
    assert_eq!(m.description, "d");
    let step = op.resume(Ok(Reply::Saved(Row::Collection(m))));
    assert!(matches!(step, Step::Done(Ok(CreateResult::Collection(c))) if c.name == "C"));
    let (mut op, _) = create_one(NewEntityData::Tag { tag: Tag::Async });
    let step = op.resume(Ok(Reply::Saved(Row::Collection(collection::Model { name: String::new(), description: String::new() }))));
    assert!(matches!(step, Step::Done(Err(DbError::Unexpected))));
}

#[test]
fn plan_note_update_refuses_notebook() {
    let mut a = note_args();
    a.update = Some("N".to_string());
    a.topic = Some("T".to_string());
    a.notebook = Some("Other".to_string());
    let Err(message) = plan(Commands::Notes(a.clone())) else {
        panic!("expected the notebook to be refused")
    };
    assert_eq!(message, "--notebook cannot be used with --update: a note keeps its notebook");
    a.notebook = None;
    assert!(matches!(plan(Commands::Notes(a)), Ok(Plan::Update(n, UpdateEntityData::Note { .. })) if n == "N"));
}
