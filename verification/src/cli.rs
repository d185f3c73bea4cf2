//! The command line of the note tool, as data.
use vstd::prelude::*;

verus! {

#[verifier::external_type_specification]
#[verifier::external_body]
pub struct ExPathBuf(std::path::PathBuf);

/// What a run of the tool was asked to do, and in which directory of notes.
pub struct Cli {
    pub command: Command,
    pub dir: Option<std::path::PathBuf>,
}

/// The tool's subcommands.
#[derive(Clone)]
pub enum Command {
    /// Write a new note with the given body and aliases.
    New { body: String, aliases: Option<Vec<String>> },
    /// Show the note of the given identifier.
    Read { id: String },
}

} // verus!
