//! A comment block together with what it documents.
//!
//! The syntax of the documented language is not read here. What the entry
//! builders need of a declaration is held as plain values: whether it is an
//! exported type declaration, whether that type is a table, and for each field
//! of the table its key tokens, the trivia in front of the key, and the text
//! of its type.

use crate::span::SourceText;
use vstd::prelude::*;

verus! {

/// What one token is, as far as documentation is concerned.
#[derive(Debug, PartialEq)]
pub enum TokenType {
    /// A name, such as the key of a table field.
    Identifier { identifier: String },
    /// A comment that ends with its line; `comment` is its text without the
    /// comment marker.
    SingleLineComment { comment: String },
    /// A comment between long brackets; `comment` is the text inside them.
    MultiLineComment { comment: String },
    /// Any other token: white space, a symbol, a literal.
    Other,
}

/// One field of a table type, `key: value`.
#[derive(Debug, PartialEq)]
pub struct TypeField {
    /// The tokens of the key, in their order.
    pub key: Vec<TokenType>,
    /// The trivia that stands directly in front of the key, in its order.
    pub leading_trivia: Vec<TokenType>,
    /// The text of the field's type, as written; white space around it is
    /// of no account.
    pub value: String,
}

/// The type that a type declaration defines.
#[derive(Debug, PartialEq)]
pub enum TypeInfo {
    /// A table type, with its fields in the order in which they are declared.
    Table { fields: Vec<TypeField> },
    /// Any other type.
    Other,
}

/// The statement that a comment documents.
#[derive(Debug, PartialEq)]
pub enum Stmt {
    /// `export type Name = ...`, with the type that it defines.
    ExportedTypeDeclaration(TypeInfo),
    /// Any other statement.
    Other,
}

/// Where an entry is shown to come from.
#[derive(Debug, PartialEq)]
pub struct OutputSource {
    pub path: String,
    pub line: usize,
}

impl Clone for OutputSource {
    fn clone(&self) -> (copy: OutputSource)
        ensures
            copy == *self,
    {
        OutputSource { path: self.path.clone(), line: self.line }
    }
}

/// One comment block: its text, the statement that it documents, if any, and
/// where it is shown to come from.
#[derive(Debug, PartialEq)]
pub struct DocComment {
    pub comment: SourceText,
    pub stmt: Option<Stmt>,
    pub output_source: OutputSource,
}

} // verus!
