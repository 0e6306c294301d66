pub mod collection;
pub mod note;
pub mod note_tag;
pub mod notebook;
pub mod tag;
pub mod taxonomy;
