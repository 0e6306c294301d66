use vstd::prelude::*;

verus! {

/// A named group of notebooks; `name` is its primary key.
#[derive(Clone, Debug)]
pub struct Model {
    pub name: String,
    pub description: String,
}

/// What a stored collection row holds.
pub struct CollectionRow {
    pub name: Seq<char>,
    pub description: Seq<char>,
}

impl View for Model {
    type V = CollectionRow;

    open spec fn view(&self) -> CollectionRow {
        CollectionRow { name: self.name@, description: self.description@ }
    }
}

impl DeepView for Model {
    type V = CollectionRow;

    open spec fn deep_view(&self) -> CollectionRow {
        self@
    }
}

} // verus!
