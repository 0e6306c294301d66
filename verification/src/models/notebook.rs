use vstd::prelude::*;

verus! {

/// A notebook of notes inside a collection; `name` is its primary key.
/// `description` holds JSON text.
#[derive(Clone, Debug)]
pub struct Model {
    pub name: String,
    pub description: String,
    pub collection_name: String,
}

/// What a stored notebook row holds.
pub struct NotebookRow {
    pub name: Seq<char>,
    pub description: Seq<char>,
    pub collection_name: Seq<char>,
}

impl View for Model {
    type V = NotebookRow;

    open spec fn view(&self) -> NotebookRow {
        NotebookRow {
            name: self.name@,
            description: self.description@,
            collection_name: self.collection_name@,
        }
    }
}

impl DeepView for Model {
    type V = NotebookRow;

    open spec fn deep_view(&self) -> NotebookRow {
        self@
    }
}

impl Model {
    /// A field-by-field copy of this row.
    pub fn duplicate(&self) -> (r: Self)
        ensures
            r@ == self@,
    {
        Model {
            name: self.name.clone(),
            description: self.description.clone(),
            collection_name: self.collection_name.clone(),
        }
    }
}

} // verus!
