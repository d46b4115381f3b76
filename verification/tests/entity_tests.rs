use rusty_dam::classification::{Classification, ClassificationBuilder, RecordClassification};
use rusty_dam::error::LoadError;
use rusty_dam::field::{Field, FieldBuilder};
use rusty_dam::field_group::{FieldGroup, FieldGroupBuilder};
use rusty_dam::name_path::ClassificationNamePath;
use rusty_dam::session::{App, Session};
use rusty_dam::user::{User, UserWrite};

fn logged_in() -> App {
    let mut app = App::new();
    app.login(Ok(Session::from_row(10, 20, "alice".to_string()))).unwrap();
    app
}

#[test]
fn load_error_messages() {
    assert_eq!(LoadError::NotFound.message(), "File not found");
    assert_eq!(LoadError::ParentNotExists.message(), "Parent classification doesn't exists");
    assert_eq!(LoadError::RootCls.message(), "Can't create root classification");
    assert_eq!(LoadError::Unauthorized.message(), "Unauthorized access to DAM");
    assert_eq!(LoadError::ImpersonationFailed.message(), "Unable to login as admin");
}

#[test]
fn login_sets_session_and_failure_keeps_it() {
    let mut app = App::new();
    assert!(app.session_id().is_none());
    assert_eq!(app.require_session(), Err(LoadError::Unauthorized));
    assert_eq!(app.login(Err(LoadError::NotFound)), Err(LoadError::NotFound));
    assert!(app.session_id().is_none());
    app.login(Ok(Session::from_row(5, 6, "bob".to_string()))).unwrap();
    assert_eq!(app.session_id(), Some(5));
    assert_eq!(app.session().as_ref().unwrap().login(), "bob");
    assert_eq!(app.connect_to_session(Err(LoadError::NotFound)), Err(LoadError::NotFound));
    assert_eq!(app.session_id(), Some(5));
}

#[test]
fn as_admin_restores_session() {
    let mut app = logged_in();
    let seen = app.as_admin(Some(Session::from_row(99, 1, "root".to_string())), |a| a.session_id());
    assert_eq!(seen, Ok(Some(99)));
    assert_eq!(app.session_id(), Some(10));
    let failed: Result<u32, LoadError> = app.as_admin(None, |_| 1);
    assert_eq!(failed, Err(LoadError::ImpersonationFailed));
    assert_eq!(app.session_id(), Some(10));
}

#[test]
fn field_builder_needs_session() {
    let anon = App::new();
    assert_eq!(FieldBuilder::new().name("Gender".to_string()).build(&anon).err(), Some(LoadError::Unauthorized));
    let app = logged_in();
    let row = FieldBuilder::new().name("Gender".to_string()).build(&app).ok().unwrap();
    assert_eq!(row.name, "Gender");
    let mut field = row.into_field(42);
    assert_eq!(field.id(), 42);
    assert_eq!(field.name(), "Gender");
    assert!(field.save(&app).unwrap().is_none());
    assert_eq!(field.save(&anon).err(), Some(LoadError::Unauthorized));
    assert_eq!(field.delete(&app), Ok(42));
}

#[test]
fn field_group_add_field() {
    let app = logged_in();
    let anon = App::new();
    let mut group = FieldGroupBuilder::new().name("Basic".to_string()).build(&app).ok().unwrap().into_field_group(3);
    let field = Field::from_row(4, "Gender".to_string());
    let row = group.add_field(&app, &field).ok().unwrap();
    assert_eq!((row.field_group_id, row.field_id), (3, 4));
    assert!(group.add_field(&anon, &field).is_err());
    assert!(group.save(&app).unwrap().is_none());
    assert_eq!(FieldGroup::from_row(8, "x".to_string()).delete(&anon), Err(LoadError::Unauthorized));
}

#[test]
fn classification_builder_row() {
    let row = ClassificationBuilder::new().name("Armani".to_string()).parent(77).build();
    assert_eq!(row.name, "Armani");
    assert_eq!(row.parent_id, Some(77));
    let row = ClassificationBuilder::new().name("Root".to_string()).build();
    assert_eq!(row.parent_id, None);
}

#[test]
fn classification_rename_and_save() {
    let app = logged_in();
    let mut cls = Classification::from_row(1, Some(2), ClassificationNamePath::from_str("/Brands/Armani"));
    assert!(cls.save(&app).unwrap().is_none());
    cls.rename("Gucci".to_string());
    assert_eq!(cls.name(), "Gucci");
    let update = cls.save(&app).unwrap().unwrap();
    assert_eq!(update.id, 1);
    assert_eq!(update.name, "Gucci");
    assert_eq!(update.parent_name, Some("Brands".to_string()));
    assert!(cls.save(&app).unwrap().is_none());
    cls.updated(Some(9));
    assert_eq!(cls.parent_id(), Some(9));
}

#[test]
fn classification_move_to() {
    let app = logged_in();
    let anon = App::new();
    let mut cls = Classification::from_row(1, Some(2), ClassificationNamePath::from_str("/Brands/Armani"));
    let target = ClassificationNamePath::from_str("/Sale");
    assert_eq!(cls.move_to(&anon, ClassificationNamePath::from_str("/Sale"), Ok(true)), Err(LoadError::Unauthorized));
    assert_eq!(cls.move_to(&app, ClassificationNamePath::from_str("/Sale"), Ok(false)), Ok(()));
    assert_eq!(cls.name_path().to_string(), "/Brands/Armani");
    assert_eq!(cls.move_to(&app, ClassificationNamePath::from_str("/Brands"), Ok(true)), Ok(()));
    assert_eq!(cls.name_path().to_string(), "/Brands/Armani");
    assert_eq!(cls.move_to(&app, target, Ok(true)), Ok(()));
    assert_eq!(cls.name_path().to_string(), "/Sale/Armani");
    assert!(cls.save(&app).unwrap().is_some());
    let mut root = Classification::from_row(5, None, ClassificationNamePath::from_str("/Root"));
    assert_eq!(root.move_to(&app, ClassificationNamePath::from_str("/Other"), Ok(true)), Ok(()));
    assert_eq!(root.name_path().to_string(), "/Root");
}

#[test]
fn record_classification_dto() {
    let cls = Classification::from_row(1, Some(2), ClassificationNamePath::from_str("/Brands/Armani"));
    let rc = RecordClassification::from_classification(cls);
    let dto = rc.to_dto();
    assert_eq!(dto.name_path, "/Brands/Armani");
    assert_eq!(dto.parent_id, Some(2));
    let back = RecordClassification::from_dto(dto);
    assert_eq!(back.id(), 1);
}

#[test]
fn user_save_inserts_then_does_nothing() {
    let app = logged_in();
    let anon = App::new();
    assert!(User::new(&anon, "u".to_string(), "p".to_string(), None).is_err());
    let mut user = User::new(&app, "carol".to_string(), "secret".to_string(), Some("c@x".to_string())).unwrap();
    assert_eq!((user.id() >> 76) & 0xf, 4);
    assert!(matches!(user.save(&anon), Err(LoadError::Unauthorized)));
    match user.save(&app) {
        Ok(UserWrite::Insert(row)) => {
            assert_eq!(row.id, user.id());
            assert_eq!(row.login, "carol");
            assert_eq!(row.email, Some("c@x".to_string()));
            assert_eq!(row.password, rusty_dam::crypto::get_sha3("secret"));
        }
        _ => panic!("expected an insert"),
    }
    assert!(matches!(user.save(&app), Ok(UserWrite::Nothing)));
    let loaded = User::from_row(1, "d".to_string(), "h".to_string(), None);
    assert_eq!(loaded.login(), "d");
    assert_eq!(loaded.delete(&app), Ok(1));
}

#[test]
fn user_changeset_is_dirty() {
    let update = rusty_dam::user::UserUpdate { id: 1, login: None, password: None, email: None };
    assert!(!update.changeset().is_dirty());
    let update = rusty_dam::user::UserUpdate { id: 1, login: None, password: None, email: Some(None) };
    assert!(update.changeset().is_dirty());
    let c = rusty_dam::user::UserChangeset { login: Some("a"), password: None, email: None };
    assert!(c.is_dirty());
}

#[test]
fn fields_of_a_classification_come_without_values() {
    let cls = Classification::from_row(7, Some(6), ClassificationNamePath::from_str("/Brands/Armani"));
    let rows = vec![(1u128, "Gender".to_string()), (2u128, "Size".to_string())];
    let fields = cls.get_fields(&logged_in(), rows.clone()).unwrap();
    assert_eq!(fields.len(), 2);
    assert_eq!(fields[0].id(), 1);
    assert_eq!(fields[1].id(), 2);
    assert!(matches!(fields[0].value(), rusty_dam::field::FieldValue::Empty));
    assert!(matches!(cls.get_fields(&App::new(), rows), Err(LoadError::Unauthorized)));
}
