use std::io;

use lethe::note::is_reserved_key;
use lethe::{Identifier, Metadata, MetadataError, Note, NoteError, Timestamp, WriteStep};

fn ts(secs: i64) -> Timestamp {
    Timestamp { secs, nanos: 0 }
}

fn table(entries: &[(&str, toml::Value)]) -> toml::Table {
    let mut t = toml::Table::new();
    for (k, v) in entries {
        t.insert(k.to_string(), v.clone());
    }
    t
}

/// A note as read back from its files: nothing left to write.
fn stored_note(body: &str, aliases: &[&str], extra: toml::Table) -> Note {
    let id = Identifier::from_str("67e55044-10b1-426f-9247-bb680e5fe0c8").unwrap();
    let meta = Metadata::from_parts(
        id,
        ts(100),
        ts(100),
        aliases.iter().map(|a| a.to_string()).collect(),
        extra,
    )
    .unwrap();
    match Note::read(id, Ok(Ok(meta)), Ok(body.to_string())) {
        Ok(note) => note,
        Err(_) => panic!("read failed"),
    }
}

fn io_error(text: &str) -> io::Error {
    io::Error::new(io::ErrorKind::Other, text.to_string())
}

fn write_all(note: &mut Note) -> Vec<WriteStep> {
    let mut steps = Vec::new();
    let mut step = note.write_begin();
    while step != WriteStep::Done {
        steps.push(step);
        step = note.write_advance(step);
    }
    steps
}

#[test]
fn reserved_keys_are_the_system_keys() {
    for key in ["id", "ctime", "mtime", "aliases"] {
        assert!(is_reserved_key(key));
    }
    for key in ["", "ids", "ID", "Aliases", "alias", "x", "mtimes"] {
        assert!(!is_reserved_key(key));
    }
}

#[test]
fn new_note_is_unwritten_with_given_body_and_aliases() {
    let id = Identifier::new(uuid::Uuid::new_v4().as_u128());
    let note = Note::new(id, ts(9), "hello".to_string(), vec!["a".to_string(), "b".to_string()]);
    assert_eq!(note.body(), "hello");
    assert_eq!(note.meta().aliases(), &["a".to_string(), "b".to_string()]);
    assert!(note.meta().extra().is_empty());
    assert_eq!(note.meta().ctime(), note.meta().mtime());
    assert_eq!(note.write_begin(), WriteStep::CreateDir);
    assert_eq!(note.meta().id().to_string().chars().nth(14), Some('4'));
}

#[test]
fn created_note_holds_what_it_was_given() {
    let id = Identifier::default();
    let note = Note::new(id, ts(42), "b".to_string(), vec![]);
    assert_eq!(note.meta().ctime(), &ts(42));
    assert_eq!(note.meta().mtime(), &ts(42));
    assert_eq!(note.meta().id().to_string(), id.to_string());
    assert_eq!(note.body(), "b");
    assert!(note.meta().aliases().is_empty());
}

#[test]
fn writing_a_new_note_writes_metadata_then_body() {
    let mut note = Note::new(Identifier::default(), ts(1), "x".to_string(), vec![]);
    assert_eq!(
        write_all(&mut note),
        vec![WriteStep::CreateDir, WriteStep::WriteMeta, WriteStep::WriteBody]
    );
    assert_eq!(note.write_begin(), WriteStep::Done);
    assert_eq!(note.body(), "x");
}

#[test]
fn writing_writes_only_what_changed() {
    let mut note = stored_note("old", &[], toml::Table::new());
    assert_eq!(note.write_begin(), WriteStep::Done);
    assert!(write_all(&mut note).is_empty());

    note.set_body("new".to_string(), ts(200));
    assert_eq!(
        write_all(&mut note),
        vec![WriteStep::CreateDir, WriteStep::WriteMeta, WriteStep::WriteBody]
    );

    let mut note = stored_note("old", &[], toml::Table::new());
    let changed = note.update(|e| ok(e.set_aliases(vec!["z".to_string()])), ts(1000));
    assert!(changed.unwrap());
    assert_eq!(write_all(&mut note), vec![WriteStep::CreateDir, WriteStep::WriteMeta]);
}

#[test]
fn an_interrupted_write_resumes_where_it_stopped() {
    let mut note = Note::new(Identifier::default(), ts(1), "x".to_string(), vec![]);
    let step = note.write_begin();
    let step = note.write_advance(step);
    assert_eq!(step, WriteStep::WriteMeta);
    let step = note.write_advance(step);
    assert_eq!(step, WriteStep::WriteBody);
    // the body write fails: the body is still to be written, the metadata is not
    assert_eq!(note.write_begin(), WriteStep::CreateDir);
    let step = note.write_advance(WriteStep::CreateDir);
    assert_eq!(step, WriteStep::WriteBody);
    assert_eq!(note.write_advance(step), WriteStep::Done);
    assert_eq!(note.write_begin(), WriteStep::Done);
}

#[test]
fn write_errors_name_the_failed_step() {
    let note = stored_note("b", &[], toml::Table::new());
    let id = note.meta().id().to_string();
    match note.write_error(WriteStep::CreateDir, io_error("dir")) {
        NoteError::NoteCreateDirError { id: i, error } => {
            assert_eq!(i.to_string(), id);
            assert_eq!(error.to_string(), "dir");
        }
        other => panic!("unexpected {other:?}"),
    }
    assert!(matches!(
        note.write_error(WriteStep::WriteMeta, io_error("m")),
        NoteError::MetadataWriteError { .. }
    ));
    assert!(matches!(
        note.write_error(WriteStep::WriteBody, io_error("b")),
        NoteError::BodyWriteError { .. }
    ));
}

#[test]
fn reading_reports_the_first_failure() {
    let id = Identifier::new(7);
    match Note::read(id, Err(io_error("meta")), Err(io_error("body"))) {
        Err(NoteError::MetadataReadError { id: i, error }) => {
            assert_eq!(i.to_string(), id.to_string());
            assert_eq!(error.to_string(), "meta");
        }
        _ => panic!("expected the metadata's failure"),
    }

    let parse_error = toml::from_str::<toml::Table>("= no key").unwrap_err();
    match Note::read(id, Ok(Err(parse_error)), Ok("b".to_string())) {
        Err(NoteError::MetadataParseError { id: i, .. }) => assert_eq!(i.to_string(), id.to_string()),
        _ => panic!("expected the parser's failure"),
    }

    let meta = Metadata::from_parts(id, ts(1), ts(2), vec![], toml::Table::new()).unwrap();
    match Note::read(id, Ok(Ok(meta)), Err(io_error("body"))) {
        Err(NoteError::BodyReadError { id: i, error }) => {
            assert_eq!(i.to_string(), id.to_string());
            assert_eq!(error.to_string(), "body");
        }
        _ => panic!("expected the body's failure"),
    }
}

#[test]
fn a_note_read_back_carries_the_identifier_it_was_read_under() {
    let asked = Identifier::new(1);
    let stored = Identifier::new(2);
    let meta = Metadata::from_parts(stored, ts(1), ts(2), vec![], toml::Table::new()).unwrap();
    match Note::read(asked, Ok(Ok(meta)), Ok("b".to_string())) {
        Ok(note) => {
            assert_eq!(note.meta().id().to_string(), asked.to_string());
            assert_eq!(note.body(), "b");
            assert_eq!(note.meta().mtime(), &ts(2));
            assert_eq!(note.write_begin(), WriteStep::Done);
        }
        Err(_) => panic!("read failed"),
    }
}

#[test]
fn serialise_errors_name_the_note() {
    let note = stored_note("b", &[], toml::Table::new());
    let error = toml::to_string(&toml::Value::Integer(1)).unwrap_err();
    match note.serialise_error(error) {
        NoteError::MetadataSerialiseError { id, .. } => {
            assert_eq!(id.to_string(), note.meta().id().to_string())
        }
        other => panic!("unexpected {other:?}"),
    }
}

#[test]
fn a_note_read_back_holds_what_was_stored() {
    let extra = table(&[("x", toml::Value::Integer(3)), ("tag", toml::Value::String("t".into()))]);
    let note = stored_note("body", &["one", "two"], extra.clone());
    assert_eq!(note.body(), "body");
    assert_eq!(note.meta().aliases(), &["one".to_string(), "two".to_string()]);
    assert_eq!(note.meta().extra(), &extra);
    assert_eq!(note.meta().ctime(), &ts(100));
    assert_eq!(note.meta().mtime(), &ts(100));
}

#[test]
fn note_set_body_noop_and_change() {
    let mut note = stored_note("same", &[], toml::Table::new());
    note.set_body("same".to_string(), ts(500));
    assert_eq!(note.meta().mtime(), &ts(100));
    assert_eq!(note.write_begin(), WriteStep::Done);

    note.set_body("other".to_string(), ts(500));
    assert_eq!(note.body(), "other");
    assert_eq!(note.meta().mtime(), &ts(500));
    assert_eq!(note.meta().ctime(), &ts(100));
    assert_eq!(write_all(&mut note), vec![WriteStep::CreateDir, WriteStep::WriteMeta, WriteStep::WriteBody]);

    // a clock that went back does not take the modification time back
    note.set_body("third".to_string(), ts(300));
    assert_eq!(note.body(), "third");
    assert_eq!(note.meta().mtime(), &ts(500));
}

fn ok(_: bool) -> Result<(), MetadataError> {
    Ok(())
}

/// What a test can observe of a note: identifier, times, body, aliases, extra keys, and the
/// first step of writing it (which says whether anything is left to write).
fn snapshot(note: &Note) -> (String, Timestamp, Timestamp, String, Vec<String>, toml::Table, WriteStep) {
    (
        note.meta().id().to_string(),
        *note.meta().ctime(),
        *note.meta().mtime(),
        note.body().to_string(),
        note.meta().aliases().to_vec(),
        note.meta().extra().clone(),
        note.write_begin(),
    )
}

#[test]
fn note_editor_noop_and_change_branches() {
    let value = toml::Value::Integer(7);
    let other_value = toml::Value::Integer(8);
    let extra = table(&[("p", toml::Value::Boolean(true))]);
    let other_extra = table(&[("p", toml::Value::Boolean(false))]);
    let mut note = stored_note("body", &["a"], table(&[("k", value.clone())]));
    let mut now = 100;

    // each step: the edit, whether it changes the note
    let mut step = |note: &mut Note, changes: bool, f: &dyn Fn(&mut lethe::NoteEditor) -> Result<(), MetadataError>| {
        now += 100;
        let before = snapshot(note);
        let mutated = note.update(|e| f(e), ts(now)).unwrap();
        assert_eq!(mutated, changes);
        if changes {
            assert_eq!(note.meta().mtime(), &ts(now));
        } else {
            assert_eq!(snapshot(note), before);
        }
    };

    step(&mut note, false, &|e| ok(e.set_body("body".to_string())));
    step(&mut note, true, &|e| ok(e.set_body("body2".to_string())));
    step(&mut note, false, &|e| ok(e.set_aliases(vec!["a".to_string()])));
    step(&mut note, true, &|e| ok(e.set_aliases(vec!["a".to_string(), "b".to_string()])));
    step(&mut note, false, &|e| e.set_extra_value("k".to_string(), value.clone()).map(|_| ()));
    step(&mut note, false, &|e| e.remove_extra_key("other").map(|_| ()));
    step(&mut note, true, &|e| ok(e.clear_extra()));
    step(&mut note, false, &|e| ok(e.clear_extra()));
    step(&mut note, true, &|e| e.set_extra_value("k".to_string(), other_value.clone()).map(|_| ()));
    step(&mut note, true, &|e| e.remove_extra_key("k").map(|_| ()));
    step(&mut note, true, &|e| e.set_extra(extra.clone()).map(|_| ()));
    step(&mut note, false, &|e| e.set_extra(extra.clone()).map(|_| ()));
    step(&mut note, true, &|e| e.set_extra(other_extra.clone()).map(|_| ()));

    assert_eq!(note.body(), "body2");
    assert_eq!(note.meta().aliases(), &["a".to_string(), "b".to_string()]);
    assert_eq!(note.meta().extra(), &other_extra);
    assert_eq!(note.meta().ctime(), &ts(100));
}

#[test]
fn editor_results_say_what_changed() {
    let mut note = stored_note("b", &[], toml::Table::new());
    let result = note.update(|e| {
        assert!(e.set_body("c".to_string()));
        assert!(!e.set_body("c".to_string()));
        assert_eq!(e.body(), "c");
        assert_eq!(e.set_extra_value("n".to_string(), toml::Value::Integer(1)).unwrap(), true);
        assert_eq!(e.set_extra_value("n".to_string(), toml::Value::Integer(1)).unwrap(), false);
        assert_eq!(e.meta().extra().len(), 1);
        assert_eq!(e.remove_extra_key("n").unwrap(), true);
        assert_eq!(e.remove_extra_key("n").unwrap(), false);
        Ok(())
    }, ts(1000));
    assert_eq!(result.unwrap(), true);
    assert_eq!(note.body(), "c");
    assert_eq!(write_all(&mut note), vec![WriteStep::CreateDir, WriteStep::WriteMeta, WriteStep::WriteBody]);
}

#[test]
fn reserved_keys_rejected() {
    for key in ["id", "ctime", "mtime", "aliases"] {
        let mut note = stored_note("b", &["a"], table(&[("x", toml::Value::Integer(1))]));

        let before = snapshot(&note);
        let res = note.update(|e| e.set_extra_value(key.to_string(), toml::Value::Boolean(true)).map(|_| ()), ts(1000));
        match res {
            Err(MetadataError::ReservedKey { key: k }) => assert_eq!(k, key),
            _ => panic!("accepted {key}"),
        }
        assert_eq!(snapshot(&note), before);

        let before = snapshot(&note);
        let res = note.update(|e| e.remove_extra_key(key).map(|_| ()), ts(1000));
        assert!(matches!(res, Err(MetadataError::ReservedKey { key: k }) if k == key));
        assert_eq!(snapshot(&note), before);

        let before = snapshot(&note);
        let res = note.update(|e| e.set_extra(table(&[(key, toml::Value::Integer(2))])).map(|_| ()), ts(1000));
        assert!(matches!(res, Err(MetadataError::ReservedKey { key: k }) if k == key));
        assert_eq!(snapshot(&note), before);
        assert_eq!(note.write_begin(), WriteStep::Done);
    }
}

#[test]
fn a_refused_table_names_its_first_reserved_key() {
    let mut note = stored_note("b", &[], toml::Table::new());
    let bad = table(&[
        ("zeta", toml::Value::Integer(1)),
        ("mtime", toml::Value::Integer(1)),
        ("id", toml::Value::Integer(1)),
        ("ctime", toml::Value::Integer(1)),
    ]);
    match note.update(|e| e.set_extra(bad).map(|_| ()), ts(1000)) {
        Err(MetadataError::ReservedKey { key }) => assert_eq!(key, "ctime"),
        _ => panic!("accepted a reserved key"),
    }
}

#[test]
fn a_failed_batch_marks_what_it_changed() {
    let mut note = stored_note("b", &[], toml::Table::new());
    let res = note.update(|e| {
        e.set_body("changed".to_string());
        e.set_extra_value("id".to_string(), toml::Value::Integer(1))?;
        Ok(())
    }, ts(1000));
    match res {
        Err(MetadataError::ReservedKey { key }) => assert_eq!(key, "id"),
        _ => panic!("expected the refusal"),
    }
    // the body edit stays in place, so it is marked and the note is touched
    assert_eq!(note.body(), "changed");
    assert_eq!(note.meta().mtime(), &ts(1000));
    assert_eq!(
        write_all(&mut note),
        vec![WriteStep::CreateDir, WriteStep::WriteMeta, WriteStep::WriteBody]
    );
}

#[test]
fn a_batch_keeps_the_identifier_and_creation_time() {
    let mut note = stored_note("b", &[], toml::Table::new());
    let id = note.meta().id().to_string();
    assert!(note.update(|e| ok(e.set_body("c".to_string())), ts(50)).unwrap());
    assert_eq!(note.meta().id().to_string(), id);
    assert_eq!(note.meta().ctime(), &ts(100));
    // a batch that ends at a time before the last change does not take the time back
    assert_eq!(note.meta().mtime(), &ts(100));
}

#[test]
fn metadata_refuses_reserved_free_keys() {
    let id = Identifier::default();
    let extra = table(&[("mtime", toml::Value::Integer(1)), ("aliases", toml::Value::Integer(1))]);
    match Metadata::from_parts(id, ts(1), ts(1), vec![], extra) {
        Err(MetadataError::ReservedKey { key }) => assert_eq!(key, "aliases"),
        Ok(_) => panic!("accepted a reserved key"),
    }
    let fine = table(&[("x", toml::Value::Integer(1))]);
    let meta = Metadata::from_parts(id, ts(1), ts(2), vec!["a".to_string()], fine.clone()).unwrap();
    assert_eq!(meta.extra(), &fine);
    assert_eq!(meta.mtime(), &ts(2));
}

#[test]
fn a_float_nan_is_never_equal_to_itself() {
    let mut note = stored_note("b", &[], toml::Table::new());
    let nan = toml::Value::Float(f64::NAN);
    assert!(note.update(|e| e.set_extra_value("f".to_string(), nan.clone()).map(|_| ()), ts(1000)).unwrap());
    assert!(note.update(|e| e.set_extra_value("f".to_string(), nan.clone()).map(|_| ()), ts(1000)).unwrap());
    let one = toml::Value::Float(1.5);
    assert!(note.update(|e| e.set_extra_value("g".to_string(), one.clone()).map(|_| ()), ts(1000)).unwrap());
    assert!(!note.update(|e| e.set_extra_value("g".to_string(), one.clone()).map(|_| ()), ts(1000)).unwrap());
}

#[test]
fn defaults_are_empty() {
    let note = Note::default();
    assert_eq!(note.body(), "");
    assert_eq!(note.meta().id().to_string(), "00000000-0000-0000-0000-000000000000");
    assert_eq!(note.meta().ctime(), &Timestamp::default());
    assert!(note.meta().aliases().is_empty());
    assert!(note.meta().extra().is_empty());
    assert_eq!(note.write_begin(), WriteStep::Done);
    assert_eq!(Timestamp::default(), ts(0));
}
