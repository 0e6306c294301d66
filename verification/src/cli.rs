//! What the command line asks for: the arguments of each command, and the
//! operation they select.
use crate::crud::EntityKind;
use crate::crud::new::{NewEntityData, new_row};
use crate::crud::query::RowView;
use crate::crud::update::{UpdateEntityData, UpdateView};
use crate::json::{json_or_text, json_or_text_spec};
use crate::models::taxonomy::Tag;
use crate::crud::update::tag_named;
use vstd::prelude::*;

verus! {

/// The arguments of the command that manages collections.
#[derive(Clone, Debug)]
pub struct CollectionArgs {
    pub all: bool,
    pub show: Option<String>,
    pub new: bool,
    pub update: Option<String>,
    pub delete: Option<String>,
    pub name: Option<String>,
    pub description: Option<String>,
}

/// The arguments of the command that manages notebooks; the description is
/// JSON, or text to wrap as JSON.
#[derive(Clone, Debug)]
pub struct NotebookArgs {
    pub all: bool,
    pub show: Option<String>,
    pub new: bool,
    pub update: Option<String>,
    pub delete: Option<String>,
    pub name: Option<String>,
    pub description: Option<String>,
    pub collection: Option<String>,
}

/// The arguments of the command that manages notes; the content is JSON,
/// or text to wrap as JSON.
#[derive(Clone, Debug)]
pub struct NoteArgs {
    pub all: bool,
    pub show: Option<String>,
    pub new: bool,
    pub update: Option<String>,
    pub delete: Option<String>,
    pub name: Option<String>,
    pub topic: Option<String>,
    pub content: Option<String>,
    pub notebook: Option<String>,
}

/// The arguments of the command that manages tags.
#[derive(Clone, Debug)]
pub struct TagArgs {
    pub all: bool,
    pub show: Option<String>,
    pub new: Option<String>,
    pub delete: Option<String>,
}

/// The command given on the command line.
#[derive(Clone, Debug)]
pub enum Commands {
    Collections(CollectionArgs),
    Notebooks(NotebookArgs),
    Notes(NoteArgs),
    Tags(TagArgs),
}

/// What a command asks the program to do.
#[derive(Clone, Debug)]
pub enum Plan {
    /// List every record of the kind.
    All(EntityKind),
    /// Show the record of the kind with the name.
    Show(EntityKind, String),
    /// Create a record.
    Create(NewEntityData),
    /// Update the record with the current name.
    Update(String, UpdateEntityData),
    /// Delete the record of the kind with the name.
    Delete(EntityKind, String),
    /// A tag was to be created from a text that names no tag.
    UnknownTag(String),
    /// The command asks for nothing.
    Nothing,
}

/// What a plan holds.
pub enum PlanView {
    All(EntityKind),
    Show(EntityKind, Seq<char>),
    Create(RowView),
    Update(Seq<char>, UpdateView),
    Delete(EntityKind, Seq<char>),
    UnknownTag(Seq<char>),
    Nothing,
}

impl View for Plan {
    type V = PlanView;

    open spec fn view(&self) -> PlanView {
        match self {
            Plan::All(k) => PlanView::All(*k),
            Plan::Show(k, n) => PlanView::Show(*k, n@),
            Plan::Create(d) => PlanView::Create(new_row(*d)),
            Plan::Update(n, d) => PlanView::Update(n@, d@),
            Plan::Delete(k, n) => PlanView::Delete(*k, n@),
            Plan::UnknownTag(v) => PlanView::UnknownTag(v@),
            Plan::Nothing => PlanView::Nothing,
        }
    }
}

/// What a plan, or the message of the argument missing for it, holds.
pub open spec fn planned(r: Result<Plan, String>) -> Result<PlanView, Seq<char>> {
    match r {
        Ok(p) => Ok(p@),
        Err(m) => Err(m@),
    }
}

/// The value of a required argument, or the message for it missing.
fn require(value: Option<String>, message: &str) -> (r: Result<String, String>)
    ensures
        match value {
            Some(v) => r matches Ok(w) && w@ == v@,
            None => r matches Err(m) && m@ == message@,
        },
{
    match value {
        Some(v) => Ok(v),
        None => Err(String::from_str(message)),
    }
}

/// What the collections command asks for: the first of `--all`, `--show`,
/// `--new` (which needs a name and a description), `--update` and `--delete`
/// that is given.
pub open spec fn collections_plan(
    all: bool,
    show: Option<Seq<char>>,
    new: bool,
    update: Option<Seq<char>>,
    delete: Option<Seq<char>>,
    name: Option<Seq<char>>,
    description: Option<Seq<char>>,
) -> Result<PlanView, Seq<char>> {
    if all {
        Ok(PlanView::All(EntityKind::Collection))
    } else if show is Some {
        Ok(PlanView::Show(EntityKind::Collection, show->0))
    } else if new {
        if name is None {
            Err("--name is required when using --new"@)
        } else if description is None {
            Err("--description is required when using --new"@)
        } else {
            Ok(PlanView::Create(RowView::Collection(crate::models::collection::CollectionRow {
                name: name->0,
                description: description->0,
            })))
        }
    } else if update is Some {
        Ok(PlanView::Update(update->0, UpdateView::Collection { name, description }))
    } else if delete is Some {
        Ok(PlanView::Delete(EntityKind::Collection, delete->0))
    } else {
        Ok(PlanView::Nothing)
    }
}

/// What the notebooks command asks for: as for collections; `--new` needs a
/// name, a description and a collection, and a description is taken as JSON
/// or wrapped as JSON.
pub open spec fn notebooks_plan(a: NotebookArgs) -> Result<PlanView, Seq<char>> {
    if a.all {
        Ok(PlanView::All(EntityKind::Notebook))
    } else if a.show is Some {
        Ok(PlanView::Show(EntityKind::Notebook, a.show->0@))
    } else if a.new {
        if a.name is None {
            Err("--name is required when using --new"@)
        } else if a.description is None {
            Err("--description is required when using --new"@)
        } else if a.collection is None {
            Err("--collection is required when using --new"@)
        } else {
            Ok(PlanView::Create(RowView::Notebook(crate::models::notebook::NotebookRow {
                name: a.name->0@,
                description: json_or_text_spec(a.description->0@),
                collection_name: a.collection->0@,
            })))
        }
    } else if a.update is Some {
        Ok(PlanView::Update(a.update->0@, UpdateView::Notebook {
            name: a.name.deep_view(),
            description: match a.description {
                Some(d) => Some(json_or_text_spec(d@)),
                None => None,
            },
            collection_name: a.collection.deep_view(),
        }))
    } else if a.delete is Some {
        Ok(PlanView::Delete(EntityKind::Notebook, a.delete->0@))
    } else {
        Ok(PlanView::Nothing)
    }
}

/// What the notes command asks for: as for collections; `--new` needs a
/// name, a topic, a content and a notebook, and a content is taken as JSON or
/// wrapped as JSON. An update leaves the tags of the note alone; the update
/// data has no notebook to move the note to, so `--notebook` given with
/// `--update` is refused with a message rather than passed over.
pub open spec fn notes_plan(a: NoteArgs) -> Result<PlanView, Seq<char>> {
    if a.all {
        Ok(PlanView::All(EntityKind::Note))
    } else if a.show is Some {
        Ok(PlanView::Show(EntityKind::Note, a.show->0@))
    } else if a.new {
        if a.name is None {
            Err("--name is required when using --new"@)
        } else if a.topic is None {
            Err("--topic is required when using --new"@)
        } else if a.content is None {
            Err("--content is required when using --new"@)
        } else if a.notebook is None {
            Err("--notebook is required when using --new"@)
        } else {
            Ok(PlanView::Create(RowView::Note(crate::models::note::NoteRow {
                name: a.name->0@,
                topic: a.topic->0@,
                content: json_or_text_spec(a.content->0@),
                notebook_name: a.notebook->0@,
            })))
        }
    } else if a.update is Some && a.notebook is Some {
        Err(notebook_not_updated())
    } else if a.update is Some {
        Ok(PlanView::Update(a.update->0@, UpdateView::Note {
            name: a.name.deep_view(),
            topic: a.topic.deep_view(),
            content: match a.content {
                Some(c) => Some(json_or_text_spec(c@)),
                None => None,
            },
            tags: None,
        }))
    } else if a.delete is Some {
        Ok(PlanView::Delete(EntityKind::Note, a.delete->0@))
    } else {
        Ok(PlanView::Nothing)
    }
}

/// The message for `--notebook` given with `notes --update`.
pub open spec fn notebook_not_updated() -> Seq<char> {
    "--notebook cannot be used with --update: a note keeps its notebook"@
}

/// What the tags command asks for: `--new` creates the tag stored under
/// the given text, if there is one.
pub open spec fn tags_plan(a: TagArgs) -> PlanView {
    if a.all {
        PlanView::All(EntityKind::Tag)
    } else if a.show is Some {
        PlanView::Show(EntityKind::Tag, a.show->0@)
    } else if a.new is Some {
        match tag_named(a.new->0@) {
            Some(t) => PlanView::Create(RowView::Tag(t)),
            None => PlanView::UnknownTag(a.new->0@),
        }
    } else if a.delete is Some {
        PlanView::Delete(EntityKind::Tag, a.delete->0@)
    } else {
        PlanView::Nothing
    }
}

/// What `command` asks for, or the message for a required argument that is
/// missing.
pub open spec fn command_plan(command: Commands) -> Result<PlanView, Seq<char>> {
    match command {
        Commands::Collections(a) => collections_plan(
            a.all,
            a.show.deep_view(),
            a.new,
            a.update.deep_view(),
            a.delete.deep_view(),
            a.name.deep_view(),
            a.description.deep_view(),
        ),
        Commands::Notebooks(a) => notebooks_plan(a),
        Commands::Notes(a) => notes_plan(a),
        Commands::Tags(a) => Ok(tags_plan(a)),
    }
}

/// The JSON text of each given value.
fn json_of(value: Option<String>) -> (r: Option<String>)
    ensures
        r.deep_view() == match value {
            Some(v) => Some(json_or_text_spec(v@)),
            None => None,
        },
{
    match value {
        Some(v) => Some(json_or_text(v.as_str())),
        None => None,
    }
}

/// Decide what `command` asks for; `Err` holds the message for a required
/// argument that is missing, or for an argument that cannot be honoured.
pub fn plan(command: Commands) -> (r: Result<Plan, String>)
    ensures
        planned(r) == command_plan(command),
{
    match command {
        Commands::Collections(a) => {
            if a.all {
                Ok(Plan::All(EntityKind::Collection))
            } else if let Some(n) = a.show {
                Ok(Plan::Show(EntityKind::Collection, n))
            } else if a.new {
                let name = require(a.name, "--name is required when using --new")?;
                let description = require(a.description, "--description is required when using --new")?;
                Ok(Plan::Create(NewEntityData::Collection { name, description }))
            } else if let Some(current) = a.update {
                Ok(Plan::Update(current, UpdateEntityData::Collection { name: a.name, description: a.description }))
            } else if let Some(n) = a.delete {
                Ok(Plan::Delete(EntityKind::Collection, n))
            } else {
                Ok(Plan::Nothing)
            }
        },
        Commands::Notebooks(a) => {
            if a.all {
                Ok(Plan::All(EntityKind::Notebook))
            } else if let Some(n) = a.show {
                Ok(Plan::Show(EntityKind::Notebook, n))
            } else if a.new {
                let name = require(a.name, "--name is required when using --new")?;
                let description = require(a.description, "--description is required when using --new")?;
                let description = json_or_text(description.as_str());
                let collection_name = require(a.collection, "--collection is required when using --new")?;
                Ok(Plan::Create(NewEntityData::Notebook { name, description, collection_name }))
            } else if let Some(current) = a.update {
                let description = json_of(a.description);
                Ok(Plan::Update(current, UpdateEntityData::Notebook {
                    name: a.name,
                    description,
                    collection_name: a.collection,
                }))
            } else if let Some(n) = a.delete {
                Ok(Plan::Delete(EntityKind::Notebook, n))
            } else {
                Ok(Plan::Nothing)
            }
        },
        Commands::Notes(a) => {
            if a.all {
                Ok(Plan::All(EntityKind::Note))
            } else if let Some(n) = a.show {
                Ok(Plan::Show(EntityKind::Note, n))
            } else if a.new {
                let name = require(a.name, "--name is required when using --new")?;
                let topic = require(a.topic, "--topic is required when using --new")?;
                let content = require(a.content, "--content is required when using --new")?;
                let content = json_or_text(content.as_str());
                let notebook_name = require(a.notebook, "--notebook is required when using --new")?;
                Ok(Plan::Create(NewEntityData::Note { name, topic, content, notebook_name }))
            } else if let Some(current) = a.update {
                if a.notebook.is_some() {
                    return Err(String::from_str("--notebook cannot be used with --update: a note keeps its notebook"));
                }
                let content = json_of(a.content);
                Ok(Plan::Update(current, UpdateEntityData::Note { name: a.name, topic: a.topic, content, tags: None }))
            } else if let Some(n) = a.delete {
                Ok(Plan::Delete(EntityKind::Note, n))
            } else {
                Ok(Plan::Nothing)
            }
        },
        Commands::Tags(a) => {
            if a.all {
                Ok(Plan::All(EntityKind::Tag))
            } else if let Some(n) = a.show {
                Ok(Plan::Show(EntityKind::Tag, n))
            } else if let Some(value) = a.new {
                let found = Tag::from_value(value.as_str());
                proof {
                    if let Some(t) = found {
                        let c = choose|t: Tag| crate::models::taxonomy::tag_text(t) == value@;
                        crate::models::taxonomy::lemma_tag_text_injective(t, c);
                    }
                }
                match found {
                    Some(tag) => Ok(Plan::Create(NewEntityData::Tag { tag })),
                    None => Ok(Plan::UnknownTag(value)),
                }
            } else if let Some(n) = a.delete {
                Ok(Plan::Delete(EntityKind::Tag, n))
            } else {
                Ok(Plan::Nothing)
            }
        },
    }
}

} // verus!
