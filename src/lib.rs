//! A document viewer's core: loading a text file into a document, counting
//! its lines, characters and bytes, splitting it into styled fragments for
//! display, and keeping the transcript of questions put to a language model
//! about it.
pub mod chat;
pub mod document;
pub mod highlight;
pub mod prompt;
pub mod text;
pub mod viewer;
