//! Notes as atomic, timestamped records with free-form metadata: the verified core.
pub mod cli;
pub mod identifier;
pub mod note;
pub mod table;
pub mod time;

pub use cli::{Cli, Command};
pub use identifier::{Identifier, IdentifierError};
pub use note::{Metadata, MetadataError, Note, NoteEditor, NoteError, WriteStep};
pub use time::Timestamp;
pub mod laws;
