use rusty_dam::classification::{Classification, ClassificationDto, RecordClassification};
use rusty_dam::clock::Timestamp;
use rusty_dam::collections::{ClassificationCollection, FieldCollection, FileCollection};
use rusty_dam::error::LoadError;
use rusty_dam::field::{text_value, FieldDto, FieldValue, RecordField};
use rusty_dam::file::{File, FileDto};
use rusty_dam::name_path::ClassificationNamePath;
use rusty_dam::record::{record_doc_type, Record, RecordDto, RecordWrite, SystemInfo};
use rusty_dam::session::{App, Session};

fn logged_in() -> App {
    let mut app = App::new();
    app.login(Ok(Session::from_row(10, 20, "alice".to_string()))).unwrap();
    app
}

#[test]
fn field_values_from() {
    assert!(matches!(FieldValue::from(5i64), FieldValue::Number(5)));
    assert!(matches!(FieldValue::from(true), FieldValue::Boolean(true)));
    assert!(matches!(FieldValue::from(()), FieldValue::Empty));
    assert!(matches!(FieldValue::from("Man".to_string()), FieldValue::Text(ref s) if s == "Man"));
    assert!(matches!(text_value("Man"), FieldValue::Text(ref s) if s == "Man"));
}

#[test]
fn record_field_set_value_and_dto() {
    let mut f = RecordField::empty(1, "Gender".to_string());
    assert!(matches!(f.value(), FieldValue::Empty));
    f.set_value(text_value("Man"));
    let dto = f.to_dto();
    assert_eq!(dto.id, 1);
    assert_eq!(dto.name, "Gender");
    assert!(matches!(dto.value, FieldValue::Text(ref s) if s == "Man"));
    let back = RecordField::from_dto(dto);
    assert!(matches!(back.value(), FieldValue::Empty));
}

#[test]
fn field_collection_add_keeps_first() {
    let mut c = FieldCollection::new();
    c.add(RecordField::empty(1, "a".to_string()));
    c.add(RecordField::empty(1, "b".to_string()));
    c.add(RecordField::empty(2, "c".to_string()));
    let mut ids = c.ids();
    ids.sort();
    assert_eq!(ids, vec![1, 2]);
    assert_eq!(c.index(1).to_dto().name, "a");
    assert!(c.contains(2));
    assert!(!c.contains(3));
    c.set_value(2, FieldValue::Number(7));
    assert!(matches!(c.index(2).value(), FieldValue::Number(7)));
    assert_eq!(c.to_dtos().len(), 2);
}

#[test]
fn field_collection_from_iter_later_wins() {
    let c = FieldCollection::from_iter(vec![
        RecordField::empty(1, "a".to_string()),
        RecordField::empty(1, "b".to_string()),
    ]);
    assert_eq!(c.ids(), vec![1]);
    assert_eq!(c.index(1).to_dto().name, "b");
}

#[test]
fn classification_collection_add_replaces() {
    let mut c = ClassificationCollection::new();
    let a = Classification::from_row(1, None, ClassificationNamePath::from_str("/a"));
    let b = Classification::from_row(1, None, ClassificationNamePath::from_str("/b"));
    c.add(RecordClassification::from_classification(a));
    c.add(RecordClassification::from_classification(b));
    let dtos = c.to_dtos();
    assert_eq!(dtos.len(), 1);
    assert_eq!(dtos[0].name_path, "/b");
}

#[test]
fn file_collection_and_file() {
    let f = File::new("/tmp/photo.jpg".to_string());
    assert_eq!((f.id() >> 76) & 0xf, 4);
    assert_eq!(f.file_stem(), "photo");
    assert_eq!(f.checked_file_stem(), Some("photo".to_string()));
    assert_eq!(File::from_dto(FileDto { id: 3, full_file_path: "/".to_string() }).checked_file_stem(), None);
    let id = f.id();
    let c = FileCollection::from_iter(vec![f]);
    assert_eq!(c.ids(), vec![id]);
    assert_eq!(c.to_dtos()[0].full_file_path, "/tmp/photo.jpg");
    assert!(FileCollection::new().ids().is_empty());
}

#[test]
fn new_record_needs_session() {
    assert!(matches!(Record::new(&App::new()), Err(LoadError::Unauthorized)));
    let r = Record::new(&logged_in()).ok().unwrap();
    assert_eq!(r.created_by(), "alice");
    assert_eq!(r.modified_by(), "alice");
    assert!(r.is_new());
    assert!(r.fields().ids().is_empty());
    assert!(r.created_on().nanos < 1_000_000_000);
    assert_eq!(record_doc_type(), "records");
}

#[test]
fn save_new_record_indexes_then_reindexes_when_stored() {
    let app = logged_in();
    let mut r = Record::new(&app).ok().unwrap();
    assert!(matches!(r.save(&App::new()), Err(LoadError::Unauthorized)));
    let dto = match r.save(&app) {
        Ok(RecordWrite::Index(d)) => d,
        _ => panic!("expected an index"),
    };
    assert_eq!(dto.system.id, r.id());
    assert_eq!(dto.system.created_by, "alice");
    let mut stored = Record::from_dto(dto);
    assert!(!stored.is_new());
    match stored.save(&app) {
        Ok(RecordWrite::Reindex(id, d)) => {
            assert_eq!(id, stored.id());
            assert_eq!(d.system.id, stored.id());
        }
        _ => panic!("expected a reindex"),
    }
    assert_eq!(stored.delete(&app), Ok(r.id()));
}

#[test]
fn record_round_trip_drops_field_values() {
    let t = Timestamp { secs: 1_500_000_000, nanos: 7 };
    let dto = RecordDto {
        fields: vec![FieldDto { id: 1, name: "Gender".to_string(), value: FieldValue::Text("Man".to_string()) }],
        classifications: vec![ClassificationDto { id: 2, parent_id: Some(3), name_path: "/Brands/Armani".to_string() }],
        files: vec![FileDto { id: 4, full_file_path: "/x/y.png".to_string() }],
        system: SystemInfo { id: 9, created_by: "a".to_string(), created_on: t, modified_by: "b".to_string(), modified_on: t },
    };
    let r = Record::from_dto(dto);
    assert_eq!(r.id(), 9);
    assert!(!r.is_new());
    assert!(matches!(r.fields().index(1).value(), FieldValue::Empty));
    let again = r.to_dto();
    assert_eq!(again.system.id, 9);
    assert_eq!(again.system.created_by, "a");
    assert_eq!(again.system.modified_by, "b");
    assert_eq!(again.system.created_on, t);
    assert_eq!(again.fields.len(), 1);
    assert_eq!(again.fields[0].name, "Gender");
    assert!(matches!(again.fields[0].value, FieldValue::Empty));
    assert_eq!(again.classifications[0].name_path, "/Brands/Armani");
    assert_eq!(again.classifications[0].parent_id, Some(3));
    assert_eq!(again.files[0].full_file_path, "/x/y.png");
}

#[test]
fn stem_of_a_program_path() {
    assert_eq!(rusty_dam::file::path_stem("/opt/bin/worker.exe"), Some("worker".to_string()));
    assert_eq!(rusty_dam::file::path_stem("/"), None);
}
