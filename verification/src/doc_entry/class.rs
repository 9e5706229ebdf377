use crate::diagnostic::Diagnostics;
use crate::doc_entry::{
    report_unused, unused_diagnostics, DocEntryArgumentsModel, DocEntryParseArguments,
};
use vstd::prelude::*;

verus! {

/// A doc entry for a class, which contains functions, properties and types.
///
/// The entry holds the name and the description only: what belongs to a class
/// is found by the scope that the other entries name.
#[derive(Debug, PartialEq)]
pub struct ClassDocEntry {
    pub name: String,
    pub desc: String,
}

/// What a [`ClassDocEntry`] holds.
pub struct ClassDocEntryModel {
    pub name: Seq<char>,
    pub desc: Seq<char>,
}

impl View for ClassDocEntry {
    type V = ClassDocEntryModel;

    open spec fn view(&self) -> ClassDocEntryModel {
        ClassDocEntryModel { name: self.name@, desc: self.desc@ }
    }
}

pub const UNUSED_BY_CLASS: &'static str = "this tag is unused by class doc entries";

impl ClassDocEntry {
    /// The entry that `args` describe.
    pub open spec fn built(args: DocEntryArgumentsModel) -> ClassDocEntryModel {
        ClassDocEntryModel { name: args.name, desc: args.desc }
    }

    /// Builds the entry of a class from `args`.
    ///
    /// A class entry folds no tag, so every tag is unused: the build succeeds
    /// on an empty tag sequence, and otherwise reports each tag.
    pub fn parse<'a>(args: DocEntryParseArguments<'a>) -> (result: Result<
        ClassDocEntry,
        Diagnostics<'a>,
    >)
        ensures
            result is Ok <==> args.tags@.len() == 0,
            result matches Ok(entry) ==> entry@ == Self::built(args@),
            result matches Err(batch) ==> batch@ == unused_diagnostics(
                args.tags@,
                UNUSED_BY_CLASS@,
            ),
    {
        match report_unused(&args.tags, UNUSED_BY_CLASS) {
            Some(batch) => Err(batch),
            None => Ok(ClassDocEntry { name: args.name, desc: args.desc }),
        }
    }
}

} // verus!
