use crate::models::taxonomy::Tag;
use vstd::prelude::*;

verus! {

/// A tag that notes can be linked to; the tag itself is the primary key.
#[derive(Clone, Copy, Debug, PartialEq, Eq, Structural)]
pub struct Model {
    pub tag: Tag,
}

impl DeepView for Model {
    type V = Tag;

    open spec fn deep_view(&self) -> Tag {
        self.tag
    }
}

} // verus!
