use rusty_dam::classification::Classification;
use rusty_dam::error::LoadError;
use rusty_dam::name_path::ClassificationNamePath;
use rusty_dam::record::{Record, RecordWrite};
use rusty_dam::session::{App, Session};

fn admin() -> Option<Session> {
    Some(Session::from_row(1, 2, "admin".to_string()))
}

#[test]
fn get_record() {
    let mut c = App::new();
    c.as_admin(admin(), |app| {
        let mut new_record = Record::new(&app).unwrap();
        let record_id = new_record.id();

        println!("Record id: {}", new_record.id());
        let saved = new_record.save(&app);
        assert!(saved.is_ok());

        let record = app.require_session().map(|_| match saved {
            Ok(RecordWrite::Index(dto)) => Record::from_dto(dto),
            Ok(RecordWrite::Reindex(_, dto)) => Record::from_dto(dto),
            Err(_) => unreachable!(),
        });
        let record = record.map(|r: Record| {
            println!("Record id: {}", r.id());
            assert_eq!(r.id(), record_id);
        });

        assert!(record.is_ok());
    })
    .unwrap();
}

#[test]
fn create_record() {
    let mut c = App::new();
    c.as_admin(admin(), |app| {
        let mut record = Record::new(&app).unwrap();
        let save_result = record.save(&app);

        println!("Saved: {:?}", save_result.is_ok());
        println!("Record: {}", record.id());

        let delete_result = record.delete(&app);
        println!("Deleted: {:?}", delete_result);

        assert!(save_result.is_ok());
        assert!(delete_result.is_ok());
    })
    .unwrap();
}

/// The stored classifications, as the database would give them back:
/// id, parent id and name path.
fn stored() -> Vec<(u128, Option<u128>, Vec<String>)> {
    vec![
        (6, None, vec!["Brands".to_string()]),
        (7, Some(6), vec!["Brands".to_string(), "Armani".to_string()]),
    ]
}

/// Looks a classification up by its name: the name is parsed as a path,
/// the classification whose path ends in it is found, and it is loaded
/// for the session.
fn get(app: &App, name: &str) -> Result<Classification, LoadError> {
    if !ClassificationNamePath::has_nodes(name) {
        return Err(LoadError::NotFound);
    }
    let path = ClassificationNamePath::from_str(name);
    let wanted = path.name().to_string();
    let (id, parent, nodes) = stored()
        .into_iter()
        .find(|(_, _, nodes)| nodes.last().map(|n| n == &wanted).unwrap_or(false))
        .ok_or(LoadError::NotFound)?;
    app.require_session()?;
    Ok(Classification::from_row(id, parent, ClassificationNamePath::from_path(nodes)))
}

#[test]
fn load_cls() {
    let mut c = App::new();
    c.as_admin(admin(), |app| {
        let cls: Result<Classification, LoadError> = get(&app, "Armani");

        println!("Classification: {:?}", cls.as_ref().map(|c| c.id()));

        assert!(cls.is_ok());
        let cls = cls.unwrap();
        assert_eq!(cls.id(), 7);
        assert_eq!(cls.name(), "Armani");
    })
    .unwrap();
}

#[test]
fn load_classification_path() {
    let mut c = App::new();
    c.as_admin(admin(), |app| {
        let cls: Result<Classification, LoadError> = get(&app, "Armani");

        println!(
            "Classification name path: {:?}",
            cls.as_ref().map(|c| c.name_path().to_string())
        );

        assert!(cls.is_ok());
        assert_eq!(cls.unwrap().name_path().to_string(), "/Brands/Armani");
    })
    .unwrap();
}

#[test]
fn load_cls_needs_a_session_and_a_name() {
    let app = App::new();
    assert!(matches!(get(&app, "Armani"), Err(LoadError::Unauthorized)));
    assert!(matches!(get(&app, "//"), Err(LoadError::NotFound)));
    assert!(matches!(get(&app, "Gucci"), Err(LoadError::NotFound)));
}
