//! Documentation records assembled from the `@tag` annotations of source
//! comments.
//!
//! A comment block is cut into tags ([`tags::parser::parse_tags`]), each tag is parsed
//! into a typed value bound to its place in the text ([`tags::Tag`]), and the
//! tags are folded into the record of the documented item ([`doc_entry`]).
//! Every failure is kept, as a located [`diagnostic::Diagnostic`].

pub mod text;
pub mod span;
pub mod diagnostic;
pub mod tags;
pub mod doc_comment;
pub mod doc_entry;
