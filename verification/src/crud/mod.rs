pub mod delete;
pub mod get;
pub mod new;
pub mod query;
pub mod update;

use vstd::prelude::*;

verus! {

/// Describes which entity to retrieve from the database.
#[derive(Clone, Copy, Debug, PartialEq, Eq, Structural)]
pub enum EntityKind {
    Collection,
    Notebook,
    Note,
    Tag,
}

} // verus!
