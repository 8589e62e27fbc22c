//! Renders the latest posts of a forum, with their nested comment trees, into
//! one markdown document, and prepares the call of an ebook converter on it.

pub mod text;
pub mod render;
pub mod document;
pub mod pipeline;
