//! A minimal line-editor core: a document of lines, a scratch buffer for the
//! line being edited, and the synchronization protocol that moves content
//! between them on navigation, split and join events.

pub mod chars;
pub mod document;
pub mod editor;
pub mod text_edit;
