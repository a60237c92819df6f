//! The shared handle, driven as a caller drives it: the test reads and
//! writes a file of its own, here a `String`, as the store asks.

use serde::de::Error;
use serde::ser::SerializeStruct;
use serde::Deserialize;
use serde::Deserializer;
use serde::Serialize;
use serde::Serializer;
use serde_json::Value;

use mvdb::FirstWrite;
use mvdb::IoFailure;
use mvdb::Mvdb;
use mvdb::StoreError;

#[derive(Clone, Debug, Default, PartialEq)]
struct InnerData {
    foo: String,
    bar: Vec<u8>,
    baz: String,
}

#[derive(Clone, Debug, Default, PartialEq)]
struct NotADb {
    just_one: InnerData,
    multiple: Vec<InnerData>,
}

impl Serialize for InnerData {
    fn serialize<S: Serializer>(&self, serializer: S) -> Result<S::Ok, S::Error> {
        let mut fields = serializer.serialize_struct("InnerData", 3)?;
        fields.serialize_field("foo", &self.foo)?;
        fields.serialize_field("bar", &self.bar)?;
        fields.serialize_field("baz", &self.baz)?;
        fields.end()
    }
}

impl Serialize for NotADb {
    fn serialize<S: Serializer>(&self, serializer: S) -> Result<S::Ok, S::Error> {
        let mut fields = serializer.serialize_struct("NotADb", 2)?;
        fields.serialize_field("just_one", &self.just_one)?;
        fields.serialize_field("multiple", &self.multiple)?;
        fields.end()
    }
}

fn inner_of(value: &Value) -> Option<InnerData> {
    let fields = value.as_object()?;
    if fields.len() != 3 {
        return None;
    }
    let mut bar = Vec::new();
    for byte in fields.get("bar")?.as_array()? {
        bar.push(u8::try_from(byte.as_u64()?).ok()?);
    }
    Some(InnerData {
        foo: fields.get("foo")?.as_str()?.to_string(),
        bar,
        baz: fields.get("baz")?.as_str()?.to_string(),
    })
}

fn db_of(value: &Value) -> Option<NotADb> {
    let fields = value.as_object()?;
    if fields.len() != 2 {
        return None;
    }
    let mut multiple = Vec::new();
    for item in fields.get("multiple")?.as_array()? {
        multiple.push(inner_of(item)?);
    }
    Some(NotADb { just_one: inner_of(fields.get("just_one")?)?, multiple })
}

impl<'de> Deserialize<'de> for NotADb {
    fn deserialize<D: Deserializer<'de>>(deserializer: D) -> Result<Self, D::Error> {
        let value = Value::deserialize(deserializer)?;
        db_of(&value).ok_or_else(|| D::Error::custom("not a NotADb"))
    }
}

const DEFAULT_TEXT: &str = "{\"just_one\":{\"foo\":\"\",\"bar\":[],\"baz\":\"\"},\"multiple\":[]}";

const TACOS_TEXT: &str =
    "{\"just_one\":{\"foo\":\"tacos\",\"bar\":[],\"baz\":\"\"},\"multiple\":[]}";

const DEFAULT_PRETTY: &str = "{\n  \"just_one\": {\n    \"foo\": \"\",\n    \"bar\": [],\n    \"baz\": \"\"\n  },\n  \"multiple\": []\n}";

fn sample() -> NotADb {
    NotADb {
        just_one: InnerData { foo: "thisisatest".into(), bar: vec![], baz: String::new() },
        multiple: vec![InnerData { foo: "tacos".into(), bar: vec![0, 1, 2], baz: "burritos".into() }],
    }
}

/// Carries out a first write that succeeds: the handle, and what was
/// written.
fn written<T>(first: FirstWrite<T>) -> (Mvdb<T>, Option<String>) {
    let text = first.text().map(|text| text.to_string());
    (first.finish(Ok(())).unwrap(), text)
}

/// A file that does not exist.
fn missing() -> Result<String, IoFailure> {
    Err(IoFailure::Open)
}

/// Opens a store on a file that does not exist, and carries out the write
/// that it asks for.
fn seeded(disk: &mut Option<String>) -> Mvdb<NotADb> {
    let (db, text) = written(Mvdb::from_file_or_default("db.json", missing()).unwrap());
    *disk = text;
    db
}

/// Runs a mutation as a caller has to: writes what is asked for, then
/// finishes.
fn modify<R>(db: &Mvdb<NotADb>, disk: &mut Option<String>, action: impl FnOnce(&mut NotADb) -> R) -> (R, bool) {
    let back = db.access_mut(action).unwrap();
    let wrote = match back.text() {
        Some(text) => {
            *disk = Some(text.to_string());
            true
        }
        None => false,
    };
    (back.finish(Ok(())).unwrap(), wrote)
}

#[test]
fn missing_file_is_created_with_the_default() {
    let mut disk = None;
    let db = seeded(&mut disk);
    assert_eq!(disk.as_deref(), Some(DEFAULT_TEXT));
    assert_eq!(db.access(|v| v.just_one.foo.clone()).unwrap(), "");
    assert_eq!(db.access(|v| v.clone()).unwrap(), NotADb::default());
}

#[test]
fn a_change_is_written_and_read_back() {
    let mut disk = None;
    let db = seeded(&mut disk);
    let (_, wrote) = modify(&db, &mut disk, |v| {
        v.just_one.foo = "tacos".into();
    });
    assert!(wrote);
    assert_eq!(disk.as_deref(), Some(TACOS_TEXT));

    let reopened: Mvdb<NotADb> = Mvdb::from_file("db.json", Ok(disk.unwrap())).unwrap();
    assert_eq!(reopened.access(|v| v.just_one.foo.clone()).unwrap(), "tacos");
}

#[test]
fn setting_the_same_value_again_writes_nothing() {
    let mut disk = None;
    let db = seeded(&mut disk);
    modify(&db, &mut disk, |v| {
        v.just_one.foo = "tacos".into();
    });
    let before = disk.clone();
    let (_, wrote) = modify(&db, &mut disk, |v| {
        v.just_one.foo = "tacos".into();
    });
    assert!(!wrote);
    assert_eq!(disk, before);
}

#[test]
fn undecodable_file_fails_to_open_and_is_replaced_by_the_default() {
    let on_disk = "{\"just_one\": 7}".to_string();
    let opened = Mvdb::<NotADb>::from_file("db.json", Ok(on_disk.clone()));
    assert!(matches!(opened, Err(StoreError::Decode(_))));

    let (db, text) = written(Mvdb::<NotADb>::from_file_or_default("db.json", Ok(on_disk)).unwrap());
    assert_eq!(text.as_deref(), Some(DEFAULT_TEXT));
    assert_eq!(db.access(|v| v.clone()).unwrap(), NotADb::default());
}

#[test]
fn text_that_is_no_json_is_undecodable_too() {
    for garbage in ["", "tacos", "{\"just_one\":", "[]"] {
        let opened = Mvdb::<NotADb>::from_file("db.json", Ok(garbage.to_string()));
        assert!(matches!(opened, Err(StoreError::Decode(_))));
        let (_, text) = written(Mvdb::<NotADb>::from_file_or_default("db.json", Ok(garbage.to_string())).unwrap());
        assert_eq!(text.as_deref(), Some(DEFAULT_TEXT));
    }
}

#[test]
fn reads_see_one_state_and_ask_for_no_write() {
    let (db, text) = written(Mvdb::new(sample(), "db.json").unwrap());
    let disk = text.unwrap();
    let first = db.access(|v| v.clone()).unwrap();
    let second = db.access(|v| v.clone()).unwrap();
    let count = db.access(|v| v.multiple.len()).unwrap();
    assert_eq!(first, sample());
    assert_eq!(second, first);
    assert_eq!(count, 1);
    let reopened: Mvdb<NotADb> = Mvdb::from_file("db.json", Ok(disk)).unwrap();
    assert_eq!(reopened.access(|v| v.clone()).unwrap(), first);
}

#[test]
fn a_mutation_that_is_undone_writes_nothing() {
    let mut disk = None;
    let db = seeded(&mut disk);
    let (len, wrote) = modify(&db, &mut disk, |v| {
        v.multiple.push(InnerData::default());
        v.just_one.bar.push(1);
        v.multiple.pop();
        v.just_one.bar.clear();
        v.multiple.len()
    });
    assert_eq!(len, 0);
    assert!(!wrote);
    let (_, wrote) = modify(&db, &mut disk, |_| ());
    assert!(!wrote);
    assert_eq!(disk.as_deref(), Some(DEFAULT_TEXT));
}

#[test]
fn after_a_change_the_file_decodes_to_the_value_in_memory() {
    let mut disk = None;
    let db = seeded(&mut disk);
    let (_, wrote) = modify(&db, &mut disk, |v| {
        v.just_one.foo = "thisisatest".into();
        v.multiple.push(InnerData { foo: "tacos".into(), bar: vec![0, 1, 2], baz: "burritos".into() });
    });
    assert!(wrote);
    let in_memory = db.access(|v| v.clone()).unwrap();
    assert_eq!(in_memory, sample());
    let on_disk: NotADb = serde_json::from_str(disk.as_deref().unwrap()).unwrap();
    assert_eq!(on_disk, in_memory);
}

#[test]
fn round_trip_of_the_store_s_value() {
    for value in [NotADb::default(), sample()] {
        for pretty in [false, true] {
            let made = if pretty { Mvdb::new_pretty(value.clone(), "db.json") } else { Mvdb::new(value.clone(), "db.json") };
            let (_, text) = written(made.unwrap());
            let text = text.unwrap();
            let reopened: Mvdb<NotADb> = Mvdb::from_file("db.json", Ok(text.clone())).unwrap();
            assert_eq!(reopened.access(|v| v.clone()).unwrap(), value);
            let (_, again) = written(Mvdb::new(reopened.access(|v| v.clone()).unwrap(), "db.json").unwrap());
            let again = again.unwrap();
            if !pretty {
                assert_eq!(again, text);
            }
        }
    }
}

#[test]
fn default_fallback_on_missing_and_on_undecodable_file_alike() {
    let (a, text_a) = written(Mvdb::<NotADb>::from_file_or_default("db.json", missing()).unwrap());
    let (b, text_b) = written(Mvdb::<NotADb>::from_file_or_default("db.json", Ok("[1,2".to_string())).unwrap());
    assert_eq!(text_a.as_deref(), Some(DEFAULT_TEXT));
    assert_eq!(text_b, text_a);
    assert_eq!(a.access(|v| v.clone()).unwrap(), NotADb::default());
    assert_eq!(b.access(|v| v.clone()).unwrap(), NotADb::default());
}

#[test]
fn default_fallback_keeps_a_file_that_decodes() {
    let (db, text) = written(Mvdb::<NotADb>::from_file_or_default("db.json", Ok(TACOS_TEXT.to_string())).unwrap());
    assert_eq!(text, None);
    assert_eq!(db.access(|v| v.just_one.foo.clone()).unwrap(), "tacos");
}

#[test]
fn new_returns_the_text_to_write() {
    let (db, text) = written(Mvdb::new(NotADb::default(), "db.json").unwrap());
    assert_eq!(text.as_deref(), Some(DEFAULT_TEXT));
    assert_eq!(db.file_path(), "db.json");
    assert!(!db.is_pretty());
}

#[test]
fn new_pretty_returns_indented_text() {
    let (db, text) = written(Mvdb::new_pretty(NotADb::default(), "pretty.json").unwrap());
    assert_eq!(text.as_deref(), Some(DEFAULT_PRETTY));
    assert_eq!(db.file_path(), "pretty.json");
    assert!(db.is_pretty());
}

#[test]
fn from_file_reports_a_file_that_cannot_be_opened() {
    let opened = Mvdb::<NotADb>::from_file("db.json", missing());
    assert!(matches!(opened, Err(StoreError::Io(IoFailure::Open))));
    let opened = Mvdb::<NotADb>::from_file_pretty("db.json", missing());
    assert!(matches!(opened, Err(StoreError::Io(IoFailure::Open))));
}

#[test]
fn from_file_reports_a_file_that_cannot_be_read_to_its_end() {
    let opened = Mvdb::<NotADb>::from_file("db.json", Err(IoFailure::Read));
    assert!(matches!(opened, Err(StoreError::Io(IoFailure::Read))));
    let (_, text) = written(Mvdb::<NotADb>::from_file_or_default("db.json", Err(IoFailure::Read)).unwrap());
    assert_eq!(text.as_deref(), Some(DEFAULT_TEXT));
}

#[test]
fn a_first_write_that_succeeds_gives_the_handle() {
    let first = Mvdb::new(sample(), "db.json").unwrap();
    assert!(first.text().is_some());
    let db = first.finish(Ok(())).unwrap();
    assert_eq!(db.file_path(), "db.json");
    assert_eq!(db.access(|v| v.clone()).unwrap(), sample());
}

#[test]
fn a_first_write_that_fails_gives_no_handle() {
    let first = Mvdb::new(sample(), "db.json").unwrap();
    assert!(matches!(first.finish(Err(IoFailure::Create)), Err(StoreError::Io(IoFailure::Create))));
    let first = Mvdb::<NotADb>::from_file_or_default_pretty("db.json", missing()).unwrap();
    assert_eq!(first.text(), Some(DEFAULT_PRETTY));
    assert!(matches!(first.finish(Err(IoFailure::Write)), Err(StoreError::Io(IoFailure::Write))));
}

#[test]
fn a_loaded_handle_needs_no_first_write() {
    let first = Mvdb::<NotADb>::from_file_or_default("db.json", Ok(TACOS_TEXT.to_string())).unwrap();
    assert_eq!(first.text(), None);
    let db = first.finish(Err(IoFailure::Write)).unwrap();
    assert_eq!(db.access(|v| v.just_one.foo.clone()).unwrap(), "tacos");
}

#[test]
fn from_file_pretty_reads_compact_text_and_writes_indented_text() {
    let db: Mvdb<NotADb> = Mvdb::from_file_pretty("db.json", Ok(TACOS_TEXT.to_string())).unwrap();
    assert!(db.is_pretty());
    let mut disk = Some(TACOS_TEXT.to_string());
    let (_, wrote) = modify(&db, &mut disk, |v| {
        v.just_one.foo.clear();
    });
    assert!(wrote);
    assert_eq!(disk.as_deref(), Some(DEFAULT_PRETTY));
}

#[test]
fn from_file_or_default_pretty_seeds_indented_text() {
    let (db, text) = written(Mvdb::<NotADb>::from_file_or_default_pretty("db.json", missing()).unwrap());
    assert!(db.is_pretty());
    assert_eq!(text.as_deref(), Some(DEFAULT_PRETTY));
}

#[test]
fn access_mut_returns_what_the_action_returned() {
    let mut disk = None;
    let db = seeded(&mut disk);
    let (old, wrote) = modify(&db, &mut disk, |v| std::mem::replace(&mut v.just_one.baz, "new".into()));
    assert_eq!(old, "");
    assert!(wrote);
    assert_eq!(db.access(|v| v.just_one.baz.clone()).unwrap(), "new");
}

#[test]
fn a_failed_write_is_reported_and_the_mutation_stays() {
    let mut disk = None;
    let db = seeded(&mut disk);
    let back = db
        .access_mut(|v| {
            v.just_one.foo = "tacos".into();
        })
        .unwrap();
    assert_eq!(back.text(), Some(TACOS_TEXT));
    assert!(matches!(back.finish(Err(IoFailure::Create)), Err(StoreError::Io(IoFailure::Create))));
    assert_eq!(db.access(|v| v.just_one.foo.clone()).unwrap(), "tacos");

    let back = db
        .access_mut(|v| {
            v.just_one.foo = "burritos".into();
        })
        .unwrap();
    assert!(matches!(back.finish(Err(IoFailure::Write)), Err(StoreError::Io(IoFailure::Write))));
}

#[test]
fn finish_ignores_the_outcome_where_nothing_was_to_be_written() {
    let mut disk = None;
    let db = seeded(&mut disk);
    let back = db.access_mut(|v| v.multiple.len()).unwrap();
    assert_eq!(back.text(), None);
    assert_eq!(back.finish(Err(IoFailure::Write)).unwrap(), 0);
}

#[test]
fn clones_share_one_value() {
    let mut disk = None;
    let db = seeded(&mut disk);
    let other = db.clone();
    assert_eq!(other.file_path(), db.file_path());
    assert_eq!(other.is_pretty(), db.is_pretty());
    modify(&other, &mut disk, |v| {
        v.just_one.foo = "tacos".into();
    });
    assert_eq!(db.access(|v| v.just_one.foo.clone()).unwrap(), "tacos");
    drop(db);
    assert_eq!(other.access(|v| v.just_one.foo.clone()).unwrap(), "tacos");
}

#[test]
fn the_lock_is_free_again_after_finish() {
    let mut disk = None;
    let db = seeded(&mut disk);
    for round in 0..3u8 {
        let (_, wrote) = modify(&db, &mut disk, |v| v.just_one.bar.push(round));
        assert!(wrote);
    }
    assert_eq!(db.access(|v| v.just_one.bar.clone()).unwrap(), vec![0, 1, 2]);
}

#[test]
fn a_value_that_cannot_be_encoded_makes_no_store() {
    let mut map = std::collections::BTreeMap::new();
    map.insert(vec![1u8], 1u8);
    assert!(matches!(Mvdb::new(map.clone(), "db.json"), Err(StoreError::Encode(_))));
    assert!(matches!(Mvdb::new_pretty(map, "db.json"), Err(StoreError::Encode(_))));
}

#[test]
fn a_mutation_into_a_value_that_cannot_be_encoded_fails_and_stays() {
    let (db, text) = written(Mvdb::new(std::collections::BTreeMap::<Vec<u8>, u8>::new(), "db.json").unwrap());
    assert_eq!(text.as_deref(), Some("{}"));
    let outcome = db.access_mut(|v| {
        v.insert(vec![1], 1);
    });
    assert!(matches!(outcome, Err(StoreError::Encode(_))));
    assert_eq!(db.access(|v| v.len()).unwrap(), 1);
    assert!(matches!(db.access_mut(|v| v.clear()), Err(StoreError::Encode(_))));
    assert_eq!(db.access(|v| v.len()).unwrap(), 1);
}

#[test]
fn a_later_read_sees_what_the_action_left() {
    let (db, text) = written(Mvdb::new(vec![1u8, 2, 3], "db.json").unwrap());
    assert_eq!(text.as_deref(), Some("[1,2,3]"));
    let back = db.access_mut(|v| v.pop()).unwrap();
    assert_eq!(back.text(), Some("[1,2]"));
    assert_eq!(back.finish(Ok(())).unwrap(), Some(3));
    assert_eq!(db.access(|v| v.clone()).unwrap(), vec![1u8, 2]);
    let back = db.access_mut(|v| v.truncate(2)).unwrap();
    assert_eq!(back.text(), None);
    back.finish(Ok(())).unwrap();
}
