//! Notes: a text body with machine-managed metadata, edited in batches and written out only
//! where something changed.
use vstd::prelude::*;

use crate::identifier::Identifier;
use crate::table::{
    no_entries, table_clear, table_entries, table_eq, table_get, table_insert, table_is_empty,
    table_keys, table_new, table_remove, tables_equal, text_less, texts, value_eq,
    values_equal,
};
use crate::time::{later, Timestamp};

verus! {

#[verifier::external_type_specification]
#[verifier::external_body]
pub struct ExIoError(std::io::Error);

#[verifier::external_type_specification]
#[verifier::external_body]
pub struct ExTomlDeError(toml::de::Error);

#[verifier::external_type_specification]
#[verifier::external_body]
pub struct ExTomlSerError(toml::ser::Error);

// ---------------------------------------------------------------------------------------------
// Reserved keys
// ---------------------------------------------------------------------------------------------

/// Whether a top-level metadata key is one that the system manages itself.
pub open spec fn is_reserved(key: Seq<char>) -> bool {
    key == "id"@ || key == "ctime"@ || key == "mtime"@ || key == "aliases"@
}

/// Among the reserved keys in `keys`, the one that comes first in the order of the text.
pub open spec fn first_reserved(keys: Set<Seq<char>>) -> Seq<char> {
    if keys.contains("aliases"@) {
        "aliases"@
    } else if keys.contains("ctime"@) {
        "ctime"@
    } else if keys.contains("id"@) {
        "id"@
    } else {
        "mtime"@
    }
}

/// Whether some key in `keys` is reserved.
pub open spec fn holds_reserved(keys: Set<Seq<char>>) -> bool {
    exists|k: Seq<char>| #[trigger] keys.contains(k) && is_reserved(k)
}

fn same_text(a: &str, b: &str) -> (r: bool)
    ensures
        r == (a@ == b@),
{
    a.to_owned() == b.to_owned()
}

/// Whether `key` is one of the keys that the system reserves: `id`, `ctime`, `mtime` and
/// `aliases`.
pub fn is_reserved_key(key: &str) -> (r: bool)
    ensures
        r == is_reserved(key@),
{
    same_text(key, "id") || same_text(key, "ctime") || same_text(key, "mtime") || same_text(
        key,
        "aliases",
    )
}

// ---------------------------------------------------------------------------------------------
// Metadata
// ---------------------------------------------------------------------------------------------

/// The metadata stored in the note's `meta.toml`: its identifier, its creation time
/// (`ctime`), its last modified time (`mtime`), a possibly-empty list of aliases (`aliases`),
/// and any other top-level key-value pairs (`extra`).
pub struct Metadata {
    id: Identifier,
    ctime: Timestamp,
    mtime: Timestamp,
    aliases: Vec<String>,
    extra: toml::map::Map<String, toml::Value>,
}

/// What a `Metadata` holds.
pub struct MetadataView {
    pub id: u128,
    pub ctime: Timestamp,
    pub mtime: Timestamp,
    pub aliases: Seq<Seq<char>>,
    pub extra: Map<Seq<char>, toml::Value>,
}

impl View for Metadata {
    type V = MetadataView;

    closed spec fn view(&self) -> MetadataView {
        MetadataView {
            id: self.id@,
            ctime: self.ctime,
            mtime: self.mtime,
            aliases: texts(self.aliases@),
            extra: table_entries(self.extra),
        }
    }
}

impl Metadata {
    /// The free-form keys never take the name of a reserved one.
    #[verifier::type_invariant]
    spec fn keys_are_free(self) -> bool {
        !holds_reserved(table_entries(self.extra).dom())
    }

    /// Metadata made of the given parts, as they were read back from a note's `meta.toml`. A
    /// free-form table that holds a reserved key is refused, as `NoteEditor::set_extra` refuses
    /// it: the error names the first such key in the order of the text.
    pub fn from_parts(
        id: Identifier,
        ctime: Timestamp,
        mtime: Timestamp,
        aliases: Vec<String>,
        extra: toml::map::Map<String, toml::Value>,
    ) -> (r: Result<Self, MetadataError>)
        ensures
            holds_reserved(table_entries(extra).dom()) ==> (r matches Err(e) && rejected_key(e)
                == first_reserved(table_entries(extra).dom())),
            !holds_reserved(table_entries(extra).dom()) ==> (r matches Ok(m) && m@
                == (MetadataView {
                id: id@,
                ctime,
                mtime,
                aliases: texts(aliases@),
                extra: table_entries(extra),
            })),
    {
        match first_reserved_key(&extra) {
            Some(key) => Err(MetadataError::ReservedKey { key }),
            None => Ok(Metadata { id, ctime, mtime, aliases, extra }),
        }
    }

    /// Takes the free-form table out, leaving an empty one in its place.
    fn take_extra(&mut self) -> (r: toml::map::Map<String, toml::Value>)
        ensures
            table_entries(r) == old(self)@.extra,
            !holds_reserved(table_entries(r).dom()),
            final(self)@ == (MetadataView { extra: no_entries(), ..old(self)@ }),
    {
        proof {
            use_type_invariant(&*self);
        }
        let mut extra = table_new();
        std::mem::swap(&mut extra, &mut self.extra);
        extra
    }

    /// Puts a free-form table without reserved keys in place.
    fn put_extra(&mut self, extra: toml::map::Map<String, toml::Value>)
        requires
            !holds_reserved(table_entries(extra).dom()),
        ensures
            final(self)@ == (MetadataView { extra: table_entries(extra), ..old(self)@ }),
    {
        self.extra = extra;
    }

    /// Get the note's unique identifier.
    pub fn id(&self) -> (r: &Identifier)
        ensures
            r@ == self@.id,
    {
        &self.id
    }

    /// Get the note's creation time.
    pub fn ctime(&self) -> (r: &Timestamp)
        ensures
            *r == self@.ctime,
    {
        &self.ctime
    }

    /// Get the note's last modified time.
    pub fn mtime(&self) -> (r: &Timestamp)
        ensures
            *r == self@.mtime,
    {
        &self.mtime
    }

    /// Get the note's aliases.
    pub fn aliases(&self) -> (r: &[String])
        ensures
            texts(r@) == self@.aliases,
    {
        self.aliases.as_slice()
    }

    /// Get the note's arbitrary metadata; it never holds a reserved key.
    pub fn extra(&self) -> (r: &toml::map::Map<String, toml::Value>)
        ensures
            table_entries(*r) == self@.extra,
            !holds_reserved(self@.extra.dom()),
    {
        proof {
            use_type_invariant(self);
        }
        &self.extra
    }
}

impl Default for Metadata {
    /// Metadata with the nil identifier, both times at the Unix epoch, no alias and no extra
    /// key.
    fn default() -> (r: Self)
        ensures
            r@.id == 0,
            r@.ctime == (Timestamp { secs: 0, nanos: 0 }),
            r@.mtime == (Timestamp { secs: 0, nanos: 0 }),
            r@.aliases == Seq::<Seq<char>>::empty(),
            r@.extra == no_entries(),
    {
        let r = Metadata {
            id: Identifier::default(),
            ctime: Timestamp::default(),
            mtime: Timestamp::default(),
            aliases: Vec::new(),
            extra: table_new(),
        };
        assert(texts(r.aliases@) =~= Seq::<Seq<char>>::empty());
        r
    }
}

/// A metadata key that the system reserves was given as a free-form one.
#[derive(Debug)]
pub enum MetadataError {
    ReservedKey { key: String },
}

/// The key that a `MetadataError` names.
pub open spec fn rejected_key(e: MetadataError) -> Seq<char> {
    match e {
        MetadataError::ReservedKey { key } => key@,
    }
}

/// A result of an edit, with the rejected key in place of the error.
pub open spec fn edit_outcome(r: Result<bool, MetadataError>) -> Result<bool, Seq<char>> {
    match r {
        Ok(b) => Ok(b),
        Err(e) => Err(rejected_key(e)),
    }
}

// ---------------------------------------------------------------------------------------------
// Notes
// ---------------------------------------------------------------------------------------------

/// A note: its metadata (kept in `meta.toml`), its body (kept in `body.md`), and whether each
/// of the two has changed since it was last written.
pub struct Note {
    meta: Metadata,
    body: String,
    dirty_body: bool,
    dirty_meta: bool,
}

/// What a `Note` holds.
pub struct NoteView {
    pub meta: MetadataView,
    pub body: Seq<char>,
    pub dirty_body: bool,
    pub dirty_meta: bool,
}

impl View for Note {
    type V = NoteView;

    closed spec fn view(&self) -> NoteView {
        NoteView {
            meta: self.meta@,
            body: self.body@,
            dirty_body: self.dirty_body,
            dirty_meta: self.dirty_meta,
        }
    }
}

/// The note touched at `now`: its metadata is marked as changed, and its modification time
/// moves to `now`, unless that would take it back.
pub open spec fn touched(n: NoteView, now: Timestamp) -> NoteView {
    NoteView { meta: MetadataView { mtime: later(n.meta.mtime, now), ..n.meta }, dirty_meta: true, ..n }
}

/// The note with the identifier and creation time of `origin`.
pub open spec fn with_identity_of(n: NoteView, origin: NoteView) -> NoteView {
    NoteView { meta: MetadataView { id: origin.meta.id, ctime: origin.meta.ctime, ..n.meta }, ..n }
}

/// `Note::set_body`: a different body replaces the old one, marks the body as changed and
/// touches the note; the same body changes nothing.
pub open spec fn body_replaced(n: NoteView, body: Seq<char>, now: Timestamp) -> NoteView {
    if n.body == body {
        n
    } else {
        touched(NoteView { body, dirty_body: true, ..n }, now)
    }
}

/// Whether two notes agree on everything but their text, their aliases and their extra keys:
/// identifier, creation and modification time, and both change marks.
pub open spec fn same_frame(a: NoteView, b: NoteView) -> bool {
    &&& a.meta.id == b.meta.id
    &&& a.meta.ctime == b.meta.ctime
    &&& a.meta.mtime == b.meta.mtime
    &&& a.dirty_body == b.dirty_body
    &&& a.dirty_meta == b.dirty_meta
}

/// The step that a write of the note takes next.
#[derive(Clone, Copy, Debug, PartialEq, Eq, Structural)]
pub enum WriteStep {
    /// Nothing is left to write.
    Done,
    /// Create the note's directory.
    CreateDir,
    /// Write `meta.toml`.
    WriteMeta,
    /// Write `body.md`.
    WriteBody,
}

/// The note of identifier `id` read back from metadata `meta` and body `body`: it carries `id`
/// and has nothing left to write.
pub open spec fn read_back(id: u128, meta: MetadataView, body: Seq<char>) -> NoteView {
    NoteView { meta: MetadataView { id, ..meta }, body, dirty_body: false, dirty_meta: false }
}

/// The first step of writing a note: nothing where nothing changed, else its directory.
pub open spec fn first_write_step(n: NoteView) -> WriteStep {
    if n.dirty_body || n.dirty_meta {
        WriteStep::CreateDir
    } else {
        WriteStep::Done
    }
}

/// The note, and the step to take next, once the step `done` of a write has succeeded: a
/// written file is no longer marked as changed.
pub open spec fn write_advanced(n: NoteView, done: WriteStep) -> (NoteView, WriteStep) {
    match done {
        WriteStep::Done => (n, WriteStep::Done),
        WriteStep::CreateDir => (
            n,
            if n.dirty_meta {
                WriteStep::WriteMeta
            } else if n.dirty_body {
                WriteStep::WriteBody
            } else {
                WriteStep::Done
            },
        ),
        WriteStep::WriteMeta => (
            NoteView { dirty_meta: false, ..n },
            if n.dirty_body {
                WriteStep::WriteBody
            } else {
                WriteStep::Done
            },
        ),
        WriteStep::WriteBody => (NoteView { dirty_body: false, ..n }, WriteStep::Done),
    }
}

/// Why reading or writing a note failed, with the note's identifier.
#[allow(inconsistent_fields)]
#[derive(Debug)]
pub enum NoteError {
    MetadataReadError { id: Identifier, error: std::io::Error },
    MetadataParseError { id: Identifier, error: toml::de::Error },
    MetadataSerialiseError { id: Identifier, error: toml::ser::Error },
    BodyReadError { id: Identifier, error: std::io::Error },
    NoteCreateDirError { id: Identifier, error: std::io::Error },
    MetadataWriteError { id: Identifier, error: std::io::Error },
    BodyWriteError { id: Identifier, error: std::io::Error },
}

impl Note {
    /// A new note of identifier `id` (see `Identifier::new` for a random one), created at
    /// `now`, with the given body and list of aliases and no extra metadata. Neither part has
    /// been written yet.
    pub fn new(id: Identifier, now: Timestamp, body: String, aliases: Vec<String>) -> (r: Self)
        ensures
            r@.meta.id == id@,
            r@.meta.ctime == now,
            r@.meta.mtime == now,
            r@.meta.aliases == texts(aliases@),
            r@.meta.extra == no_entries(),
            r@.body == body@,
            r@.dirty_body,
            r@.dirty_meta,
    {
        let meta = Metadata { id, ctime: now, mtime: now, aliases, extra: table_new() };
        Note { meta, body, dirty_body: true, dirty_meta: true }
    }

    /// The note of identifier `id` as read back from its files. `meta` is what reading
    /// `meta.toml` gave: the file's failure, or the metadata that its text was parsed into or
    /// the parser's failure; `body` is what reading `body.md` gave. The first failure, the
    /// metadata's before the body's, is the note's error. A note read back carries the
    /// identifier it was read under (the name of its directory), and has nothing left to
    /// write.
    pub fn read(
        id: Identifier,
        meta: Result<Result<Metadata, toml::de::Error>, std::io::Error>,
        body: Result<String, std::io::Error>,
    ) -> (r: Result<Self, NoteError>)
        ensures
            meta matches Err(e) ==> (r matches Err(NoteError::MetadataReadError { id: rid, error })
                && rid@ == id@ && error == e),
            meta matches Ok(Err(e)) ==> (r matches Err(
                NoteError::MetadataParseError { id: rid, error },
            ) && rid@ == id@ && error == e),
            meta matches Ok(Ok(_)) ==> (body matches Err(e) ==> (r matches Err(
                NoteError::BodyReadError { id: rid, error },
            ) && rid@ == id@ && error == e)),
            meta matches Ok(Ok(m)) ==> (body matches Ok(b) ==> (r matches Ok(n) && n@
                == read_back(id@, m@, b@))),
            r matches Ok(n) ==> n@.meta.id == id@,
    {
        match meta {
            Err(error) => Err(NoteError::MetadataReadError { id, error }),
            Ok(Err(error)) => Err(NoteError::MetadataParseError { id, error }),
            Ok(Ok(mut meta)) => match body {
                Err(error) => Err(NoteError::BodyReadError { id, error }),
                Ok(body) => {
                    proof {
                        use_type_invariant(&meta);
                    }
                    meta.id = id;
                    Ok(Note { meta, body, dirty_body: false, dirty_meta: false })
                },
            },
        }
    }

    /// The error of a write whose metadata could not be put into TOML text.
    pub fn serialise_error(&self, error: toml::ser::Error) -> (r: NoteError)
        ensures
            r matches NoteError::MetadataSerialiseError { id, error: e } && id@ == self@.meta.id
                && e == error,
    {
        NoteError::MetadataSerialiseError { id: self.meta.id, error }
    }

    /// The first step of writing the note out: `CreateDir` where the body or the metadata
    /// changed since the last write, `Done` where nothing did.
    pub fn write_begin(&self) -> (r: WriteStep)
        ensures
            r == first_write_step(self@),
    {
        if self.dirty_body || self.dirty_meta {
            WriteStep::CreateDir
        } else {
            WriteStep::Done
        }
    }

    /// Records that the step `done` of a write succeeded and gives the step to take next: the
    /// metadata is written before the body, and only what changed is written.
    pub fn write_advance(&mut self, done: WriteStep) -> (r: WriteStep)
        ensures
            (final(self)@, r) == write_advanced(old(self)@, done),
    {
        match done {
            WriteStep::Done => WriteStep::Done,
            WriteStep::CreateDir => {
                if self.dirty_meta {
                    WriteStep::WriteMeta
                } else if self.dirty_body {
                    WriteStep::WriteBody
                } else {
                    WriteStep::Done
                }
            },
            WriteStep::WriteMeta => {
                self.dirty_meta = false;
                if self.dirty_body {
                    WriteStep::WriteBody
                } else {
                    WriteStep::Done
                }
            },
            WriteStep::WriteBody => {
                self.dirty_body = false;
                WriteStep::Done
            },
        }
    }

    /// The error of a write whose step `step` failed with `error`.
    pub fn write_error(&self, step: WriteStep, error: std::io::Error) -> (r: NoteError)
        requires
            !(step is Done),
        ensures
            step is CreateDir ==> (r matches NoteError::NoteCreateDirError { id, error: e }
                && id@ == self@.meta.id && e == error),
            step is WriteMeta ==> (r matches NoteError::MetadataWriteError { id, error: e }
                && id@ == self@.meta.id && e == error),
            step is WriteBody ==> (r matches NoteError::BodyWriteError { id, error: e }
                && id@ == self@.meta.id && e == error),
    {
        let id = self.meta.id;
        match step {
            WriteStep::CreateDir => NoteError::NoteCreateDirError { id, error },
            WriteStep::WriteMeta => NoteError::MetadataWriteError { id, error },
            _ => NoteError::BodyWriteError { id, error },
        }
    }

    /// Applies a batch of edits at time `now`. `f` edits the note through a `NoteEditor`,
    /// which holds the note for the length of the batch; the note then comes back as
    /// `NoteEditor::finish` leaves it, with the identifier and creation time that it had: the
    /// parts that the edits changed are marked and a note that changed is touched, whether `f`
    /// succeeded or not. The result is `f`'s failure, or whether any edit changed something.
    pub fn update<F>(&mut self, f: F, now: Timestamp) -> (r: Result<bool, MetadataError>) where
        F: FnOnce(&mut NoteEditor) -> Result<(), MetadataError>,

        requires
            forall|e: &mut NoteEditor| (*e)@ == fresh_editor(old(self)@) ==> call_requires(f, (e,)),
        ensures
            exists|e: &mut NoteEditor, outcome: Result<(), MetadataError>|
                {
                    &&& (*e)@ == fresh_editor(old(self)@)
                    &&& call_ensures(f, (e,), outcome)
                    &&& final(self)@ == with_identity_of(edits_concluded((*final(e))@, now), old(self)@)
                    &&& final(self)@.body == (*final(e))@.note.body
                    &&& final(self)@.meta.aliases == (*final(e))@.note.meta.aliases
                    &&& final(self)@.meta.extra == (*final(e))@.note.meta.extra
                    &&& final(self)@.dirty_body == ((*final(e))@.note.dirty_body || ((*final(e))@.mutated
                        && (*final(e))@.dirty_body))
                    &&& final(self)@.dirty_meta == ((*final(e))@.note.dirty_meta || (*final(e))@.mutated)
                    &&& final(self)@.meta.mtime == (if (*final(e))@.mutated {
                        later((*final(e))@.note.meta.mtime, now)
                    } else {
                        (*final(e))@.note.meta.mtime
                    })
                    &&& r == batch_result((*final(e))@, outcome)
                },
            final(self)@.meta.id == old(self)@.meta.id,
            final(self)@.meta.ctime == old(self)@.meta.ctime,
            !holds_reserved(final(self)@.meta.extra.dom()),
    {
        let id = self.meta.id;
        let ctime = self.meta.ctime;
        let mut note = Note::default();
        std::mem::swap(&mut note, self);
        let mut editor = NoteEditor::new(note);
        let outcome = f(&mut editor);
        let (mut note, r) = editor.finish(outcome, now);
        proof {
            use_type_invariant(&note.meta);
        }
        note.meta.id = id;
        note.meta.ctime = ctime;
        *self = note;
        r
    }

    /// Replaces the body at time `now`: a body equal to the present one changes nothing;
    /// another marks the body as changed and touches the note.
    pub fn set_body(&mut self, body: String, now: Timestamp)
        ensures
            final(self)@ == body_replaced(old(self)@, body@, now),
    {
        if self.body == body {
            return ;
        }
        self.body = body;
        self.dirty_body = true;
        self.touch(now);
    }

    /// Get the note's metadata.
    pub fn meta(&self) -> (r: &Metadata)
        ensures
            r@ == self@.meta,
    {
        &self.meta
    }

    /// Get the note's body.
    pub fn body(&self) -> (r: &str)
        ensures
            r@ == self@.body,
    {
        self.body.as_str()
    }

    fn touch(&mut self, now: Timestamp)
        ensures
            final(self)@ == touched(old(self)@, now),
    {
        proof {
            use_type_invariant(&self.meta);
        }
        self.meta.mtime = self.meta.mtime.later_of(now);
        self.dirty_meta = true;
    }
}

impl Default for Note {
    /// An empty note with default metadata and nothing to write.
    fn default() -> (r: Self)
        ensures
            r@.meta == Metadata::default_view(),
            r@.body == Seq::<char>::empty(),
            !r@.dirty_body,
            !r@.dirty_meta,
    {
        Note { meta: Metadata::default(), body: String::new(), dirty_body: false, dirty_meta: false }
    }
}

impl Metadata {
    /// What `Metadata::default` holds.
    pub open spec fn default_view() -> MetadataView {
        MetadataView {
            id: 0,
            ctime: Timestamp { secs: 0, nanos: 0 },
            mtime: Timestamp { secs: 0, nanos: 0 },
            aliases: Seq::empty(),
            extra: no_entries(),
        }
    }
}

// ---------------------------------------------------------------------------------------------
// Editing
// ---------------------------------------------------------------------------------------------

/// Keeps track of the edits made to a `Note` in one batch, so that they are marked and
/// timestamped together.
pub struct NoteEditor {
    note: Note,
    mutated: bool,
    dirty_body: bool,
    dirty_meta: bool,
}

/// What a `NoteEditor` holds: the note as edited so far, whether any edit changed it, and
/// which of its parts changed.
pub struct EditorView {
    pub note: NoteView,
    pub mutated: bool,
    pub dirty_body: bool,
    pub dirty_meta: bool,
}

impl View for NoteEditor {
    type V = EditorView;

    closed spec fn view(&self) -> EditorView {
        EditorView {
            note: self.note@,
            mutated: self.mutated,
            dirty_body: self.dirty_body,
            dirty_meta: self.dirty_meta,
        }
    }
}

/// The editor with its note replaced and the given part marked as changed.
pub open spec fn edited(e: EditorView, note: NoteView, body_part: bool) -> EditorView {
    EditorView {
        note,
        mutated: true,
        dirty_body: e.dirty_body || body_part,
        dirty_meta: e.dirty_meta || !body_part,
    }
}

/// `NoteEditor::set_body`: the editor after it, and whether the body changed.
pub open spec fn edit_body(e: EditorView, body: Seq<char>) -> (EditorView, bool) {
    if e.note.body == body {
        (e, false)
    } else {
        (edited(e, NoteView { body, ..e.note }, true), true)
    }
}

/// `NoteEditor::set_aliases`: the editor after it, and whether the aliases changed.
pub open spec fn edit_aliases(e: EditorView, aliases: Seq<Seq<char>>) -> (EditorView, bool) {
    if e.note.meta.aliases == aliases {
        (e, false)
    } else {
        (edited(e, NoteView { meta: MetadataView { aliases, ..e.note.meta }, ..e.note }, false), true)
    }
}

/// The editor with the extra metadata of its note replaced.
pub open spec fn with_extra(e: EditorView, extra: Map<Seq<char>, toml::Value>) -> EditorView {
    edited(e, NoteView { meta: MetadataView { extra, ..e.note.meta }, ..e.note }, false)
}

/// `NoteEditor::set_extra_value`: a reserved key is refused; a value equal to the one stored
/// under the key changes nothing; any other is stored under the key.
pub open spec fn edit_extra_value(e: EditorView, key: Seq<char>, value: toml::Value) -> (
    EditorView,
    Result<bool, Seq<char>>,
) {
    let extra = e.note.meta.extra;
    if is_reserved(key) {
        (e, Err(key))
    } else if extra.contains_key(key) && values_equal(extra[key], value) {
        (e, Ok(false))
    } else {
        (with_extra(e, extra.insert(key, value)), Ok(true))
    }
}

/// `NoteEditor::remove_extra_key`: a reserved key is refused; the entry of any other key is
/// removed, where there is one.
pub open spec fn edit_remove_key(e: EditorView, key: Seq<char>) -> (
    EditorView,
    Result<bool, Seq<char>>,
) {
    let extra = e.note.meta.extra;
    if is_reserved(key) {
        (e, Err(key))
    } else if extra.contains_key(key) {
        (with_extra(e, extra.remove(key)), Ok(true))
    } else {
        (e, Ok(false))
    }
}

/// `NoteEditor::clear_extra`: every extra entry is removed, where there is one.
pub open spec fn edit_clear(e: EditorView) -> (EditorView, bool) {
    if e.note.meta.extra.dom().is_empty() {
        (e, false)
    } else {
        (with_extra(e, no_entries()), true)
    }
}

/// `NoteEditor::set_extra`: a table that holds a reserved key is refused (the error names the
/// first such key in the order of the text); a table equal to the present one changes
/// nothing; any other replaces it.
pub open spec fn edit_extra(e: EditorView, extra: Map<Seq<char>, toml::Value>) -> (
    EditorView,
    Result<bool, Seq<char>>,
) {
    if holds_reserved(extra.dom()) {
        (e, Err(first_reserved(extra.dom())))
    } else if tables_equal(e.note.meta.extra, extra) {
        (e, Ok(false))
    } else {
        (with_extra(e, extra), Ok(true))
    }
}

/// The note once a batch of edits is over, whether the editing succeeded or failed (so that
/// no edit that stays in the note is left unmarked): where the edits changed something, the
/// parts that they changed are marked and the note is touched at `now`; else the note is as
/// the edits left it.
pub open spec fn edits_concluded(e: EditorView, now: Timestamp) -> NoteView {
    if e.mutated {
        touched(
            NoteView {
                dirty_body: e.note.dirty_body || e.dirty_body,
                dirty_meta: e.note.dirty_meta || e.dirty_meta,
                ..e.note
            },
            now,
        )
    } else {
        e.note
    }
}

/// The editor of a batch that has only begun, on note `n`.
pub open spec fn fresh_editor(n: NoteView) -> EditorView {
    EditorView { note: n, mutated: false, dirty_body: false, dirty_meta: false }
}

/// What a batch of edits that ended with `outcome` answers: the editing's failure, or whether
/// the edits changed anything.
pub open spec fn batch_result(e: EditorView, outcome: Result<(), MetadataError>) -> Result<bool, MetadataError> {
    match outcome {
        Err(err) => Err(err),
        Ok(_) => Ok(e.mutated),
    }
}

fn same_texts(a: &Vec<String>, b: &Vec<String>) -> (r: bool)
    ensures
        r == (texts(a@) == texts(b@)),
{
    if a.len() != b.len() {
        assert(texts(a@).len() != texts(b@).len());
        return false;
    }
    let mut i: usize = 0;
    while i < a.len()
        invariant
            a.len() == b.len(),
            0 <= i <= a.len(),
            forall|j: int| 0 <= j < i ==> #[trigger] a@[j]@ == b@[j]@,
        decreases a.len() - i,
    {
        if !(a[i] == b[i]) {
            assert(texts(a@)[i as int] != texts(b@)[i as int]);
            return false;
        }
        i += 1;
    }
    assert(texts(a@) =~= texts(b@));
    true
}

impl NoteEditor {
    fn new(note: Note) -> (r: Self)
        ensures
            r@ == fresh_editor(note@),
    {
        NoteEditor { note, mutated: false, dirty_body: false, dirty_meta: false }
    }

    /// The body of the note as edited so far.
    pub fn body(&self) -> (r: &str)
        ensures
            r@ == self@.note.body,
    {
        self.note.body.as_str()
    }

    /// The metadata of the note as edited so far.
    pub fn meta(&self) -> (r: &Metadata)
        ensures
            r@ == self@.note.meta,
    {
        &self.note.meta
    }

    /// Replaces the body; says whether it differed from the present one.
    pub fn set_body(&mut self, body: String) -> (r: bool)
        ensures
            (final(self)@, r) == edit_body(old(self)@, body@),
    {
        if self.note.body == body {
            return false;
        }
        self.note.body = body;
        self.dirty_body = true;
        self.mutated = true;
        true
    }

    /// Replaces the aliases; says whether they differed from the present ones.
    pub fn set_aliases(&mut self, aliases: Vec<String>) -> (r: bool)
        ensures
            (final(self)@, r) == edit_aliases(old(self)@, texts(aliases@)),
    {
        if same_texts(&self.note.meta.aliases, &aliases) {
            return false;
        }
        proof {
            use_type_invariant(&self.note.meta);
        }
        self.note.meta.aliases = aliases;
        self.dirty_meta = true;
        self.mutated = true;
        true
    }

    /// Stores `value` under the free-form key `key`; says whether that changed the metadata.
    /// Reserved keys are refused.
    pub fn set_extra_value(&mut self, key: String, value: toml::Value) -> (r: Result<
        bool,
        MetadataError,
    >)
        ensures
            (final(self)@, edit_outcome(r)) == edit_extra_value(old(self)@, key@, value),
    {
        if is_reserved_key(key.as_str()) {
            return Err(MetadataError::ReservedKey { key });
        }
        let changed = match table_get(&self.note.meta.extra, key.as_str()) {
            Some(existing) => !value_eq(existing, &value),
            None => true,
        };
        if changed {
            let mut extra = self.note.meta.take_extra();
            table_insert(&mut extra, key, value);
            self.note.meta.put_extra(extra);
            self.dirty_meta = true;
            self.mutated = true;
        }
        Ok(changed)
    }

    /// Removes the free-form key `key`; says whether it was there. Reserved keys are refused.
    pub fn remove_extra_key(&mut self, key: &str) -> (r: Result<bool, MetadataError>)
        ensures
            (final(self)@, edit_outcome(r)) == edit_remove_key(old(self)@, key@),
    {
        if is_reserved_key(key) {
            return Err(MetadataError::ReservedKey { key: key.to_owned() });
        }
        let ghost before = table_entries(self.note.meta.extra);
        let mut extra = self.note.meta.take_extra();
        let removed = table_remove(&mut extra, key).is_some();
        self.note.meta.put_extra(extra);
        if !removed {
            assert(before.remove(key@) =~= before);
        }
        if removed {
            self.dirty_meta = true;
            self.mutated = true;
        }
        Ok(removed)
    }

    /// Removes every free-form key; says whether there was any.
    pub fn clear_extra(&mut self) -> (r: bool)
        ensures
            (final(self)@, r) == edit_clear(old(self)@),
    {
        if table_is_empty(&self.note.meta.extra) {
            return false;
        }
        let mut extra = self.note.meta.take_extra();
        table_clear(&mut extra);
        self.note.meta.put_extra(extra);
        self.dirty_meta = true;
        self.mutated = true;
        true
    }

    /// Replaces all free-form metadata with `extra`; says whether it differed from the present
    /// one. A table that holds a reserved key is refused.
    pub fn set_extra(&mut self, extra: toml::map::Map<String, toml::Value>) -> (r: Result<
        bool,
        MetadataError,
    >)
        ensures
            (final(self)@, edit_outcome(r)) == edit_extra(old(self)@, table_entries(extra)),
    {
        if let Some(key) = first_reserved_key(&extra) {
            return Err(MetadataError::ReservedKey { key });
        }
        if table_eq(&self.note.meta.extra, &extra) {
            return Ok(false);
        }
        self.note.meta.extra = extra;
        self.dirty_meta = true;
        self.mutated = true;
        Ok(true)
    }

    /// Ends the batch and hands the note back, with the parts that the edits changed marked
    /// and, where they changed something, touched at `now`; the result is the editing's
    /// failure, handed back unchanged, or whether the edits changed anything.
    pub fn finish(self, outcome: Result<(), MetadataError>, now: Timestamp) -> (r: (
        Note,
        Result<bool, MetadataError>,
    ))
        ensures
            r.0@ == edits_concluded(self@, now),
            r.1 == batch_result(self@, outcome),
    {
        let mut note = self.note;
        if self.mutated {
            note.dirty_body = note.dirty_body || self.dirty_body;
            note.dirty_meta = note.dirty_meta || self.dirty_meta;
            note.touch(now);
        }
        match outcome {
            Err(e) => (note, Err(e)),
            Ok(()) => (note, Ok(self.mutated)),
        }
    }
}

/// The first key of `t` that is reserved, in the order of the text, if it holds one.
fn first_reserved_key(t: &toml::map::Map<String, toml::Value>) -> (r: Option<String>)
    ensures
        holds_reserved(table_entries(*t).dom()) ==> (r matches Some(k) && k@ == first_reserved(
            table_entries(*t).dom(),
        )),
        !holds_reserved(table_entries(*t).dom()) ==> r is None,
{
    let keys = table_keys(t);
    let mut i: usize = 0;
    while i < keys.len()
        invariant
            0 <= i <= keys.len(),
            forall|j: int| 0 <= j < i ==> !is_reserved(#[trigger] keys@[j]@),
            forall|j: int|
                0 <= j < keys.len() ==> table_entries(*t).dom().contains(#[trigger] keys@[j]@),
            forall|k: Seq<char>|
                #[trigger] table_entries(*t).dom().contains(k) ==> exists|j: int|
                    0 <= j < keys.len() && #[trigger] keys@[j]@ == k,
            forall|a: int, b: int|
                0 <= a < b < keys.len() ==> text_less(#[trigger] keys@[a]@, #[trigger] keys@[b]@),
        decreases keys.len() - i,
    {
        if is_reserved_key(keys[i].as_str()) {
            proof {
                lemma_first_reserved_found(keys@, i as int, table_entries(*t).dom());
            }
            return Some(keys[i].clone());
        }
        i += 1;
    }
    None
}

proof fn lemma_first_reserved_found(keys: Seq<String>, i: int, dom: Set<Seq<char>>)
    requires
        0 <= i < keys.len(),
        is_reserved(keys[i]@),
        forall|j: int| 0 <= j < i ==> !is_reserved(#[trigger] keys[j]@),
        forall|j: int| 0 <= j < keys.len() ==> dom.contains(#[trigger] keys[j]@),
        forall|k: Seq<char>| #[trigger] dom.contains(k) ==> exists|j: int|
            0 <= j < keys.len() && #[trigger] keys[j]@ == k,
        forall|a: int, b: int| 0 <= a < b < keys.len() ==> text_less(#[trigger] keys[a]@, #[trigger] keys[b]@),
    ensures
        holds_reserved(dom),
        first_reserved(dom) == keys[i]@,
{
    let k = keys[i]@;
    reveal_strlit("id");
    reveal_strlit("ctime");
    reveal_strlit("mtime");
    reveal_strlit("aliases");
    assert(!text_less("ctime"@, "aliases"@));
    assert(!text_less("id"@, "aliases"@));
    assert(!text_less("id"@, "ctime"@));
    assert(!text_less("mtime"@, "aliases"@));
    assert(!text_less("mtime"@, "ctime"@));
    assert(!text_less("mtime"@, "id"@));
    assert(dom.contains(k));
    assert forall|r: Seq<char>| is_reserved(r) && dom.contains(r) && r != k implies text_less(k, r) by {
        let j = choose|j: int| 0 <= j < keys.len() && #[trigger] keys[j]@ == r;
        assert(j > i);
    }
}

} // verus!
