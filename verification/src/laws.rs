//! What holds of notes across their operations.
use vstd::prelude::*;

use crate::note::{
    batch_result, edits_concluded, body_replaced, edit_aliases, edit_body, edit_clear, edit_extra,
    edit_extra_value, edit_remove_key, first_reserved, first_write_step, fresh_editor,
    holds_reserved, is_reserved, read_back, same_frame, touched, with_identity_of, write_advanced,
    EditorView, MetadataError, MetadataView, NoteView, WriteStep,
};
use crate::table::{no_entries, tables_equal, text_less, values_equal};
use crate::time::{is_before, later, Timestamp};

verus! {

/// Whether the editor's record of change is consistent: it counts as changed exactly where
/// one of the parts is marked.
pub open spec fn consistent(e: EditorView) -> bool {
    e.mutated == (e.dirty_body || e.dirty_meta)
}

/// Whether `after` is an editor that an edit could leave from `before`: the same frame of the
/// note, and a consistent record of change.
pub open spec fn keeps_frame(before: EditorView, after: EditorView) -> bool {
    same_frame(before.note, after.note) && consistent(after)
}

/// Setting the same body twice: the second time changes nothing and says so.
pub proof fn law_body_edit_repeats_as_noop(e: EditorView, body: Seq<char>)
    ensures
        edit_body(edit_body(e, body).0, body) == (edit_body(e, body).0, false),
{
}

/// Setting the same aliases twice: the second time changes nothing and says so.
pub proof fn law_aliases_edit_repeats_as_noop(e: EditorView, aliases: Seq<Seq<char>>)
    ensures
        edit_aliases(edit_aliases(e, aliases).0, aliases) == (edit_aliases(e, aliases).0, false),
{
}

/// Storing the same value under the same free-form key twice: the second time changes
/// nothing and says so, for a value that is equal to itself (a TOML float NaN is not).
pub proof fn law_extra_value_edit_repeats_as_noop(
    e: EditorView,
    key: Seq<char>,
    value: toml::Value,
)
    requires
        !is_reserved(key),
        values_equal(value, value),
    ensures
        edit_extra_value(edit_extra_value(e, key, value).0, key, value) == (
            edit_extra_value(e, key, value).0,
            Ok::<bool, Seq<char>>(false),
        ),
{
    let e1 = edit_extra_value(e, key, value).0;
    assert(e1.note.meta.extra.contains_key(key));
    assert(e1.note.meta.extra[key] == value || values_equal(e1.note.meta.extra[key], value));
}

/// Removing the same free-form key twice: the second time finds nothing to remove.
pub proof fn law_key_removal_repeats_as_noop(e: EditorView, key: Seq<char>)
    requires
        !is_reserved(key),
    ensures
        edit_remove_key(edit_remove_key(e, key).0, key) == (
            edit_remove_key(e, key).0,
            Ok::<bool, Seq<char>>(false),
        ),
{
}

/// Clearing the free-form metadata twice: the second time finds nothing to clear.
pub proof fn law_clear_repeats_as_noop(e: EditorView)
    ensures
        edit_clear(edit_clear(e).0) == (edit_clear(e).0, false),
{
}

/// Replacing the free-form metadata with the same table twice: the second time changes
/// nothing and says so, for a table without reserved keys whose values are each equal to
/// themselves.
pub proof fn law_extra_edit_repeats_as_noop(e: EditorView, extra: Map<Seq<char>, toml::Value>)
    requires
        !holds_reserved(extra.dom()),
        forall|k: Seq<char>| #[trigger] extra.dom().contains(k) ==> values_equal(extra[k], extra[k]),
    ensures
        edit_extra(edit_extra(e, extra).0, extra) == (
            edit_extra(e, extra).0,
            Ok::<bool, Seq<char>>(false),
        ),
{
}

/// No edit touches a note's identifier, its creation or modification time, or its change
/// marks; and every edit keeps the editor's record of change consistent.
pub proof fn law_edits_keep_the_frame(
    e: EditorView,
    body: Seq<char>,
    aliases: Seq<Seq<char>>,
    key: Seq<char>,
    value: toml::Value,
    extra: Map<Seq<char>, toml::Value>,
)
    requires
        consistent(e),
    ensures
        keeps_frame(e, edit_body(e, body).0),
        keeps_frame(e, edit_aliases(e, aliases).0),
        keeps_frame(e, edit_extra_value(e, key, value).0),
        keeps_frame(e, edit_remove_key(e, key).0),
        keeps_frame(e, edit_clear(e).0),
        keeps_frame(e, edit_extra(e, extra).0),
{
}

/// A batch that changed nothing leaves the note exactly as it was, its modification time
/// and change marks included; one that changed something keeps the identifier and creation
/// time, marks the metadata as changed, and moves the modification time to the batch's end
/// unless that would take it back. Whether the editing failed makes no difference to the
/// note, only to the answer.
pub proof fn law_batches_touch_only_changed_notes(
    e: EditorView,
    now: Timestamp,
    failure: MetadataError,
)
    ensures
        edits_concluded(fresh_editor(e.note), now) == e.note,
        batch_result(fresh_editor(e.note), Ok(())) == Ok::<bool, MetadataError>(false),
        !e.mutated ==> edits_concluded(e, now) == e.note,
        e.mutated ==> ({
            let n = edits_concluded(e, now);
            &&& n.meta.id == e.note.meta.id
            &&& n.meta.ctime == e.note.meta.ctime
            &&& n.meta.mtime == later(e.note.meta.mtime, now)
            &&& n.dirty_meta
            &&& n.dirty_body == (e.note.dirty_body || e.dirty_body)
            &&& n.body == e.note.body
            &&& n.meta.aliases == e.note.meta.aliases
            &&& n.meta.extra == e.note.meta.extra
        }),
        batch_result(e, Err(failure)) == Err::<bool, MetadataError>(failure),
        batch_result(e, Ok(())) == Ok::<bool, MetadataError>(e.mutated),
{
}

/// A note's modification time never goes back: not when it is touched, not when its body is
/// replaced, not when a batch of edits ends.
pub proof fn law_modification_time_never_goes_back(
    n: NoteView,
    e: EditorView,
    body: Seq<char>,
    now: Timestamp,
)
    ensures
        !is_before(touched(n, now).meta.mtime, n.meta.mtime),
        !is_before(touched(n, now).meta.mtime, now),
        !is_before(body_replaced(n, body, now).meta.mtime, n.meta.mtime),
        !is_before(edits_concluded(e, now).meta.mtime, e.note.meta.mtime),
{
}

/// A reserved key is refused by every edit that names it, and a batch whose only edit was
/// refused leaves the note exactly as it was.
pub proof fn law_reserved_keys_leave_the_note_unchanged(
    n: NoteView,
    key: Seq<char>,
    value: toml::Value,
    extra: Map<Seq<char>, toml::Value>,
    now: Timestamp,
)
    requires
        is_reserved(key),
    ensures
        edit_extra_value(fresh_editor(n), key, value) == (fresh_editor(n), Err::<bool, Seq<char>>(
            key,
        )),
        edit_remove_key(fresh_editor(n), key) == (fresh_editor(n), Err::<bool, Seq<char>>(key)),
        extra.dom().contains(key) ==> edit_extra(fresh_editor(n), extra) == (
            fresh_editor(n),
            Err::<bool, Seq<char>>(first_reserved(extra.dom())),
        ),
        edits_concluded(fresh_editor(n), now) == n,
{
}

/// One edit of a batch, as data.
pub enum EditOp {
    SetBody(Seq<char>),
    SetAliases(Seq<Seq<char>>),
    SetExtraValue(Seq<char>, toml::Value),
    RemoveExtraKey(Seq<char>),
    ClearExtra,
    SetExtra(Map<Seq<char>, toml::Value>),
}

/// Whether the edit names no reserved key.
pub open spec fn names_no_reserved_key(op: EditOp) -> bool {
    match op {
        EditOp::SetExtraValue(k, _) => !is_reserved(k),
        EditOp::RemoveExtraKey(k) => !is_reserved(k),
        EditOp::SetExtra(x) => !holds_reserved(x.dom()),
        _ => true,
    }
}

/// What the editor's operation for `op` does.
pub open spec fn edit_step(e: EditorView, op: EditOp) -> (EditorView, Result<bool, Seq<char>>) {
    match op {
        EditOp::SetBody(b) => (edit_body(e, b).0, Ok(edit_body(e, b).1)),
        EditOp::SetAliases(a) => (edit_aliases(e, a).0, Ok(edit_aliases(e, a).1)),
        EditOp::SetExtraValue(k, v) => edit_extra_value(e, k, v),
        EditOp::RemoveExtraKey(k) => edit_remove_key(e, k),
        EditOp::ClearExtra => (edit_clear(e).0, Ok(edit_clear(e).1)),
        EditOp::SetExtra(x) => edit_extra(e, x),
    }
}

/// The note after a batch made of the single edit `op`, ended at `now`, and the batch's
/// answer.
pub open spec fn single_edit_batch(n: NoteView, op: EditOp, now: Timestamp) -> (
    NoteView,
    Result<bool, Seq<char>>,
) {
    let e = edit_step(fresh_editor(n), op);
    (edits_concluded(e.0, now), e.1)
}

/// What an edit changes of a note's content, told directly: the new body, aliases and free
/// keys, and whether the body and whether the metadata changed.
pub open spec fn content_change(n: NoteView, op: EditOp) -> (NoteView, bool, bool) {
    let meta = n.meta;
    match op {
        EditOp::SetBody(b) => if n.body != b {
            (NoteView { body: b, ..n }, true, false)
        } else {
            (n, false, false)
        },
        EditOp::SetAliases(a) => if meta.aliases != a {
            (NoteView { meta: MetadataView { aliases: a, ..meta }, ..n }, false, true)
        } else {
            (n, false, false)
        },
        EditOp::SetExtraValue(k, v) => if !(meta.extra.contains_key(k) && values_equal(
            meta.extra[k],
            v,
        )) {
            (NoteView { meta: MetadataView { extra: meta.extra.insert(k, v), ..meta }, ..n }, false, true)
        } else {
            (n, false, false)
        },
        EditOp::RemoveExtraKey(k) => if meta.extra.contains_key(k) {
            (NoteView { meta: MetadataView { extra: meta.extra.remove(k), ..meta }, ..n }, false, true)
        } else {
            (n, false, false)
        },
        EditOp::ClearExtra => if !meta.extra.dom().is_empty() {
            (NoteView { meta: MetadataView { extra: no_entries(), ..meta }, ..n }, false, true)
        } else {
            (n, false, false)
        },
        EditOp::SetExtra(x) => if !tables_equal(meta.extra, x) {
            (NoteView { meta: MetadataView { extra: x, ..meta }, ..n }, false, true)
        } else {
            (n, false, false)
        },
    }
}

/// The model of one edit made at `now`: where it changes the content, the body is marked
/// where it changed, the metadata is marked, and the modification time moves to `now`
/// unless that would take it back; the answer says whether anything changed.
pub open spec fn model_edit(n: NoteView, op: EditOp, now: Timestamp) -> (NoteView, bool) {
    let (m, body_changed, meta_changed) = content_change(n, op);
    if body_changed || meta_changed {
        (
            NoteView {
                meta: MetadataView { mtime: later(n.meta.mtime, now), ..m.meta },
                dirty_body: n.dirty_body || body_changed,
                dirty_meta: true,
                ..m
            },
            true,
        )
    } else {
        (n, false)
    }
}

/// A batch of one edit that names no reserved key does to the note what the model says, and
/// answers whether it changed anything; it keeps the note's identifier and creation time.
pub proof fn law_single_edit_batch_follows_the_model(n: NoteView, op: EditOp, now: Timestamp)
    requires
        names_no_reserved_key(op),
    ensures
        single_edit_batch(n, op, now).0 == model_edit(n, op, now).0,
        single_edit_batch(n, op, now).1 == Ok::<bool, Seq<char>>(model_edit(n, op, now).1),
        with_identity_of(single_edit_batch(n, op, now).0, n) == single_edit_batch(n, op, now).0,
{
    let e = fresh_editor(n);
    match op {
        EditOp::ClearExtra => {
            assert(no_entries().dom().is_empty());
        },
        _ => {},
    }
}

/// The editor after the edits of `ops`, made in turn from `e`.
pub open spec fn editor_run(e: EditorView, ops: Seq<EditOp>) -> EditorView
    decreases ops.len(),
{
    if ops.len() == 0 {
        e
    } else {
        editor_run(edit_step(e, ops[0]).0, ops.drop_first())
    }
}

/// Whether some edit of `ops`, made in turn from `e`, answered that it changed something.
pub open spec fn change_reported(e: EditorView, ops: Seq<EditOp>) -> bool
    decreases ops.len(),
{
    if ops.len() == 0 {
        false
    } else {
        edit_step(e, ops[0]).1 == Ok::<bool, Seq<char>>(true) || change_reported(
            edit_step(e, ops[0]).0,
            ops.drop_first(),
        )
    }
}

/// Whether some body edit of `ops`, made in turn from `e`, answered that it changed the body.
pub open spec fn body_change_reported(e: EditorView, ops: Seq<EditOp>) -> bool
    decreases ops.len(),
{
    if ops.len() == 0 {
        false
    } else {
        (ops[0] is SetBody && edit_step(e, ops[0]).1 == Ok::<bool, Seq<char>>(true))
            || body_change_reported(edit_step(e, ops[0]).0, ops.drop_first())
    }
}

/// The content of note `n` after the edits of `ops` in turn, told directly, with whether
/// the body and whether the metadata changed at some edit.
pub open spec fn content_run(n: NoteView, ops: Seq<EditOp>) -> (NoteView, bool, bool)
    decreases ops.len(),
{
    if ops.len() == 0 {
        (n, false, false)
    } else {
        let first = content_change(n, ops[0]);
        let rest = content_run(first.0, ops.drop_first());
        (rest.0, first.1 || rest.1, first.2 || rest.2)
    }
}

proof fn lemma_edit_step_is_content_change(e: EditorView, op: EditOp)
    requires
        names_no_reserved_key(op),
    ensures
        ({
            let (c, body_changed, meta_changed) = content_change(e.note, op);
            &&& edit_step(e, op).0 == (EditorView {
                note: c,
                mutated: e.mutated || body_changed || meta_changed,
                dirty_body: e.dirty_body || body_changed,
                dirty_meta: e.dirty_meta || meta_changed,
            })
            &&& edit_step(e, op).1 == Ok::<bool, Seq<char>>(body_changed || meta_changed)
            &&& body_changed ==> op is SetBody
            &&& !(body_changed || meta_changed) ==> c == e.note
            &&& same_frame(c, e.note)
        }),
{
    match op {
        EditOp::ClearExtra => {
            assert(no_entries().dom().is_empty());
        },
        _ => {},
    }
}

proof fn lemma_editor_run(e: EditorView, ops: Seq<EditOp>)
    requires
        forall|i: int| 0 <= i < ops.len() ==> names_no_reserved_key(#[trigger] ops[i]),
    ensures
        ({
            let (c, body_changed, meta_changed) = content_run(e.note, ops);
            let r = editor_run(e, ops);
            &&& r == (EditorView {
                note: c,
                mutated: e.mutated || body_changed || meta_changed,
                dirty_body: e.dirty_body || body_changed,
                dirty_meta: e.dirty_meta || meta_changed,
            })
            &&& change_reported(e, ops) == (body_changed || meta_changed)
            &&& body_change_reported(e, ops) == body_changed
            &&& !(body_changed || meta_changed) ==> c == e.note
            &&& same_frame(c, e.note)
        }),
    decreases ops.len(),
{
    if ops.len() > 0 {
        lemma_edit_step_is_content_change(e, ops[0]);
        assert forall|i: int| 0 <= i < ops.drop_first().len() implies names_no_reserved_key(
            #[trigger] ops.drop_first()[i],
        ) by {
            assert(ops.drop_first()[i] == ops[i + 1]);
        }
        lemma_editor_run(edit_step(e, ops[0]).0, ops.drop_first());
    }
}

/// A batch of several edits, none naming a reserved key, leaves the note as the model says:
/// the content after the edits in turn; where some edit changed something, the body marked
/// where some edit changed it, the metadata marked, and the modification time moved to the
/// batch's end unless that would take it back; else the note exactly as it was. The batch
/// answers whether some edit said it changed something, its body marks follow what the
/// body edits said, and the identifier and creation time never change.
pub proof fn law_batch_follows_the_model(n: NoteView, ops: Seq<EditOp>, now: Timestamp)
    requires
        forall|i: int| 0 <= i < ops.len() ==> names_no_reserved_key(#[trigger] ops[i]),
    ensures
        ({
            let (c, body_changed, meta_changed) = content_run(n, ops);
            let e = editor_run(fresh_editor(n), ops);
            &&& batch_result(e, Ok(())) == Ok::<bool, MetadataError>(
                change_reported(fresh_editor(n), ops),
            )
            &&& change_reported(fresh_editor(n), ops) == (body_changed || meta_changed)
            &&& body_change_reported(fresh_editor(n), ops) == body_changed
            &&& edits_concluded(e, now) == (if body_changed || meta_changed {
                NoteView {
                    meta: MetadataView { mtime: later(n.meta.mtime, now), ..c.meta },
                    dirty_body: n.dirty_body || body_changed,
                    dirty_meta: true,
                    ..c
                }
            } else {
                n
            })
            &&& edits_concluded(e, now).meta.id == n.meta.id
            &&& edits_concluded(e, now).meta.ctime == n.meta.ctime
        }),
{
    lemma_editor_run(fresh_editor(n), ops);
}

/// The note after one batch per edit of `ops`, the `i`-th ended at `times[i]`.
pub open spec fn batches_run(n: NoteView, ops: Seq<EditOp>, times: Seq<Timestamp>) -> NoteView
    decreases ops.len(),
{
    if ops.len() == 0 || times.len() == 0 {
        n
    } else {
        batches_run(single_edit_batch(n, ops[0], times[0]).0, ops.drop_first(), times.drop_first())
    }
}

/// The model's note after the edits of `ops`, the `i`-th made at `times[i]`.
pub open spec fn model_run(n: NoteView, ops: Seq<EditOp>, times: Seq<Timestamp>) -> NoteView
    decreases ops.len(),
{
    if ops.len() == 0 || times.len() == 0 {
        n
    } else {
        model_run(model_edit(n, ops[0], times[0]).0, ops.drop_first(), times.drop_first())
    }
}

/// A sequence of batches of one edit each, none naming a reserved key, leaves the note as the
/// model says after each edit in turn; the identifier and creation time never change, and
/// the modification time never goes back.
pub proof fn law_edit_sequence_follows_the_model(
    n: NoteView,
    ops: Seq<EditOp>,
    times: Seq<Timestamp>,
)
    requires
        forall|i: int| 0 <= i < ops.len() ==> names_no_reserved_key(#[trigger] ops[i]),
    ensures
        batches_run(n, ops, times) == model_run(n, ops, times),
        batches_run(n, ops, times).meta.id == n.meta.id,
        batches_run(n, ops, times).meta.ctime == n.meta.ctime,
        !is_before(batches_run(n, ops, times).meta.mtime, n.meta.mtime),
    decreases ops.len(),
{
    if ops.len() == 0 || times.len() == 0 {
    } else {
        law_single_edit_batch_follows_the_model(n, ops[0], times[0]);
        let m = single_edit_batch(n, ops[0], times[0]).0;
        assert forall|i: int| 0 <= i < ops.drop_first().len() implies names_no_reserved_key(
            #[trigger] ops.drop_first()[i],
        ) by {
            assert(ops.drop_first()[i] == ops[i + 1]);
        }
        law_edit_sequence_follows_the_model(m, ops.drop_first(), times.drop_first());
    }
}

/// Setting a note's body to the body it already has changes nothing; setting the same body
/// twice is the same as setting it once.
pub proof fn law_body_replacement_is_idempotent(
    n: NoteView,
    body: Seq<char>,
    first: Timestamp,
    second: Timestamp,
)
    ensures
        body_replaced(n, n.body, first) == n,
        body_replaced(body_replaced(n, body, first), body, second) == body_replaced(
            n,
            body,
            first,
        ),
{
}

/// The note and step after following a write from `step` for at most `steps` steps.
pub open spec fn write_run(n: NoteView, step: WriteStep, steps: nat) -> (NoteView, WriteStep)
    decreases steps,
{
    if steps == 0 || step is Done {
        (n, step)
    } else {
        let (m, next) = write_advanced(n, step);
        write_run(m, next, (steps - 1) as nat)
    }
}

/// A write that succeeds at every step ends within three steps, and leaves the note as it
/// was with nothing left to write; a note with nothing left to write takes no step at all.
pub proof fn law_write_completes(n: NoteView)
    ensures
        ({
            let (m, last) = write_run(n, first_write_step(n), 3);
            &&& last is Done
            &&& !m.dirty_body
            &&& !m.dirty_meta
            &&& m.meta == n.meta
            &&& m.body == n.body
            &&& first_write_step(m) is Done
        }),
        !n.dirty_body && !n.dirty_meta ==> first_write_step(n) is Done,
{
    reveal_with_fuel(write_run, 4);
}

/// A note written out in full and read back from the same metadata and body, under its own
/// identifier, is the note as the write left it: the same content, nothing left to write.
pub proof fn law_a_written_note_reads_back_as_it_was(n: NoteView)
    ensures
        ({
            let m = write_run(n, first_write_step(n), 3).0;
            read_back(n.meta.id, m.meta, m.body) == m
        }),
{
    law_write_completes(n);
}

/// The reserved keys are exactly `id`, `ctime`, `mtime` and `aliases`: every other key is a
/// free-form one.
pub proof fn law_reserved_keys_are_the_system_keys(key: Seq<char>)
    ensures
        is_reserved(key) <==> (key == seq!['i', 'd'] || key == seq!['c', 't', 'i', 'm', 'e']
            || key == seq!['m', 't', 'i', 'm', 'e'] || key == seq![
            'a',
            'l',
            'i',
            'a',
            's',
            'e',
            's',
        ]),
{
    reveal_strlit("id");
    reveal_strlit("ctime");
    reveal_strlit("mtime");
    reveal_strlit("aliases");
    assert("id"@ =~= seq!['i', 'd']);
    assert("ctime"@ =~= seq!['c', 't', 'i', 'm', 'e']);
    assert("mtime"@ =~= seq!['m', 't', 'i', 'm', 'e']);
    assert("aliases"@ =~= seq!['a', 'l', 'i', 'a', 's', 'e', 's']);
}

/// The key that a refused table is named by is one of its keys, a reserved one, and the first
/// reserved one in the order of the text.
pub proof fn law_first_reserved_key_is_the_least(keys: Set<Seq<char>>)
    requires
        holds_reserved(keys),
    ensures
        keys.contains(first_reserved(keys)),
        is_reserved(first_reserved(keys)),
        forall|k: Seq<char>|
            keys.contains(k) && is_reserved(k) && k != first_reserved(keys) ==> text_less(
                first_reserved(keys),
                k,
            ),
{
    reveal_strlit("id");
    reveal_strlit("ctime");
    reveal_strlit("mtime");
    reveal_strlit("aliases");
    assert(text_less("aliases"@, "ctime"@));
    assert(text_less("aliases"@, "id"@));
    assert(text_less("aliases"@, "mtime"@));
    assert(text_less("ctime"@, "id"@));
    assert(text_less("ctime"@, "mtime"@));
    assert(text_less("id"@, "mtime"@));
}

/// An edit that names a reserved key is refused with that key, whatever the editor holds and
/// whatever earlier edits of its batch did, and leaves the editor exactly as it was; a table
/// that holds a reserved key is refused with the first of them.
pub proof fn law_reserved_keys_are_refused_in_every_state(
    e: EditorView,
    key: Seq<char>,
    value: toml::Value,
    extra: Map<Seq<char>, toml::Value>,
)
    ensures
        is_reserved(key) ==> edit_extra_value(e, key, value) == (e, Err::<bool, Seq<char>>(key)),
        is_reserved(key) ==> edit_remove_key(e, key) == (e, Err::<bool, Seq<char>>(key)),
        holds_reserved(extra.dom()) ==> edit_extra(e, extra) == (
            e,
            Err::<bool, Seq<char>>(first_reserved(extra.dom())),
        ),
        !holds_reserved(extra.dom()) ==> edit_extra(e, extra).1 is Ok,
        !is_reserved(key) ==> edit_extra_value(e, key, value).1 is Ok,
        !is_reserved(key) ==> edit_remove_key(e, key).1 is Ok,
{
}

/// What each edit leaves, in every state of the editor: the part it edits holds what was
/// asked for, no other part of the content changes, the answer says whether the part was
/// different before, the part is marked where it changed, and nothing is unmarked.
pub proof fn law_edits_do_what_they_say(
    e: EditorView,
    body: Seq<char>,
    aliases: Seq<Seq<char>>,
    key: Seq<char>,
    value: toml::Value,
    extra: Map<Seq<char>, toml::Value>,
)
    ensures
        ({
            let (after, changed) = edit_body(e, body);
            &&& after.note.body == body
            &&& after.note.meta == e.note.meta
            &&& changed == (e.note.body != body)
            &&& changed ==> after.dirty_body && after.mutated
            &&& after.dirty_meta == e.dirty_meta
            &&& (e.dirty_body ==> after.dirty_body) && (e.mutated ==> after.mutated)
        }),
        ({
            let (after, changed) = edit_aliases(e, aliases);
            &&& after.note.meta.aliases == aliases
            &&& after.note.body == e.note.body
            &&& after.note.meta.extra == e.note.meta.extra
            &&& changed == (e.note.meta.aliases != aliases)
            &&& changed ==> after.dirty_meta && after.mutated
            &&& after.dirty_body == e.dirty_body
            &&& (e.dirty_meta ==> after.dirty_meta) && (e.mutated ==> after.mutated)
        }),
        !is_reserved(key) ==> ({
            let (after, answer) = edit_extra_value(e, key, value);
            let old_extra = e.note.meta.extra;
            &&& after.note.meta.extra.contains_key(key)
            &&& (after.note.meta.extra[key] == value || values_equal(old_extra[key], value))
            &&& forall|k: Seq<char>| k != key ==> (#[trigger] after.note.meta.extra.contains_key(k)
                == old_extra.contains_key(k) && (old_extra.contains_key(k)
                ==> after.note.meta.extra[k] == old_extra[k]))
            &&& after.note.body == e.note.body
            &&& after.note.meta.aliases == e.note.meta.aliases
            &&& answer == Ok::<bool, Seq<char>>(
                !(old_extra.contains_key(key) && values_equal(old_extra[key], value)),
            )
            &&& answer == Ok::<bool, Seq<char>>(true) ==> after.dirty_meta && after.mutated
            &&& after.dirty_body == e.dirty_body
        }),
        !is_reserved(key) ==> ({
            let (after, answer) = edit_remove_key(e, key);
            let old_extra = e.note.meta.extra;
            &&& !after.note.meta.extra.contains_key(key)
            &&& forall|k: Seq<char>| k != key ==> (#[trigger] after.note.meta.extra.contains_key(k)
                == old_extra.contains_key(k) && (old_extra.contains_key(k)
                ==> after.note.meta.extra[k] == old_extra[k]))
            &&& after.note.body == e.note.body
            &&& answer == Ok::<bool, Seq<char>>(old_extra.contains_key(key))
            &&& answer == Ok::<bool, Seq<char>>(true) ==> after.dirty_meta && after.mutated
        }),
        ({
            let (after, changed) = edit_clear(e);
            &&& after.note.meta.extra.dom().is_empty()
            &&& after.note.body == e.note.body
            &&& after.note.meta.aliases == e.note.meta.aliases
            &&& changed == !e.note.meta.extra.dom().is_empty()
            &&& changed ==> after.dirty_meta && after.mutated
        }),
        !holds_reserved(extra.dom()) ==> ({
            let (after, answer) = edit_extra(e, extra);
            &&& tables_equal(after.note.meta.extra, extra) || after.note.meta.extra == extra
            &&& after.note.body == e.note.body
            &&& after.note.meta.aliases == e.note.meta.aliases
            &&& answer == Ok::<bool, Seq<char>>(!tables_equal(e.note.meta.extra, extra))
            &&& answer == Ok::<bool, Seq<char>>(true) ==> after.note.meta.extra == extra
                && after.dirty_meta && after.mutated
        }),
{
    assert(no_entries().dom().is_empty());
}

/// Replacing a note's body with a different one always marks the body and the metadata as
/// changed, whatever the note's marks were, and leaves the new body in place; the same body
/// changes nothing. No other part of the content changes.
pub proof fn law_body_replacement_marks_the_body(n: NoteView, body: Seq<char>, now: Timestamp)
    ensures
        body_replaced(n, body, now).body == body,
        body_replaced(n, body, now).meta.aliases == n.meta.aliases,
        body_replaced(n, body, now).meta.extra == n.meta.extra,
        body_replaced(n, body, now).meta.id == n.meta.id,
        body_replaced(n, body, now).meta.ctime == n.meta.ctime,
        n.body != body ==> body_replaced(n, body, now).dirty_body && body_replaced(
            n,
            body,
            now,
        ).dirty_meta,
        n.body != body ==> !is_before(body_replaced(n, body, now).meta.mtime, now),
        n.body == body ==> body_replaced(n, body, now) == n,
{
}

/// Ending a batch keeps the content that its edits left, whatever it was: body, aliases and
/// free-form keys; restoring the note's identity changes only its identifier and creation
/// time.
pub proof fn law_batches_keep_the_edited_content(
    e: EditorView,
    origin: NoteView,
    now: Timestamp,
)
    ensures
        edits_concluded(e, now).body == e.note.body,
        edits_concluded(e, now).meta.aliases == e.note.meta.aliases,
        edits_concluded(e, now).meta.extra == e.note.meta.extra,
        with_identity_of(edits_concluded(e, now), origin).body == e.note.body,
        with_identity_of(edits_concluded(e, now), origin).meta.aliases == e.note.meta.aliases,
        with_identity_of(edits_concluded(e, now), origin).meta.extra == e.note.meta.extra,
        with_identity_of(edits_concluded(e, now), origin).meta.id == origin.meta.id,
        with_identity_of(edits_concluded(e, now), origin).meta.ctime == origin.meta.ctime,
        with_identity_of(edits_concluded(e, now), origin).meta.mtime == edits_concluded(
            e,
            now,
        ).meta.mtime,
        with_identity_of(edits_concluded(e, now), origin).dirty_body == edits_concluded(
            e,
            now,
        ).dirty_body,
        with_identity_of(edits_concluded(e, now), origin).dirty_meta == edits_concluded(
            e,
            now,
        ).dirty_meta,
{
}

} // verus!
