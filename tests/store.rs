use docstore::database::DatabaseServiceTrait;
use docstore::engine::{apply_projection, match_document};
use docstore::memory::MemoryDatabaseService;
use docstore::model::{User, UserBuilder};
use docstore::query::{Condition, Filter, Update};
use docstore::value::{Document, Value};

fn s(text: &str) -> String {
    text.to_string()
}

fn doc3() -> Document {
    Document::new()
        .with(s("a"), Value::Int(1))
        .with(s("b"), Value::Str(s("two")))
        .with(s("c"), Value::Bool(true))
}

fn add_user(store: &mut MemoryDatabaseService, name: &str, admin: bool) -> User {
    UserBuilder::new()
        .first_name(s("Marcel"))
        .last_name(s("Proust"))
        .username(s(name))
        .password_hash(s("hash"))
        .admin(admin)
        .publisher(false)
        .build(store, None)
        .unwrap()
}

#[test]
fn empty_filter_matches_every_document() {
    assert!(match_document(&doc3(), &Filter::new()));
    assert!(match_document(&Document::new(), &Filter::new()));
}

#[test]
fn equality_clause_needs_present_equal_field() {
    let d = doc3();
    assert!(match_document(&d, &Filter::new().equal(s("a"), Value::Int(1))));
    assert!(!match_document(&d, &Filter::new().equal(s("a"), Value::Int(2))));
    assert!(!match_document(&d, &Filter::new().equal(s("a"), Value::Str(s("1")))));
    assert!(!match_document(&d, &Filter::new().equal(s("z"), Value::Null)));
}

#[test]
fn two_clause_filter_with_one_failing_clause_matches_nothing() {
    let mut store = MemoryDatabaseService::new();
    add_user(&mut store, "alice", true);
    add_user(&mut store, "bob", false);
    let filter = Filter::new()
        .equal(s("username"), Value::Str(s("alice")))
        .equal(s("admin"), Value::Bool(false));
    assert_eq!(store.find_many::<User>(&filter).unwrap().len(), 0);
    assert!(store.find_one::<User>(&filter).unwrap().is_none());
    assert_eq!(store.count_documents::<User>(&filter).unwrap(), 0);
    let both = Filter::new()
        .equal(s("username"), Value::Str(s("alice")))
        .equal(s("admin"), Value::Bool(true));
    assert_eq!(store.count_documents::<User>(&both).unwrap(), 1);
}

#[test]
fn membership_operator_selects_fields_outside_the_list() {
    let d = doc3();
    let listed = Filter::new().with(s("a"), Condition::In(vec![Value::Int(1), Value::Int(5)]));
    assert!(!match_document(&d, &listed));
    let unlisted = Filter::new().with(s("a"), Condition::In(vec![Value::Int(7)]));
    assert!(match_document(&d, &unlisted));
    let absent = Filter::new().with(s("z"), Condition::In(vec![Value::Int(7)]));
    assert!(!match_document(&d, &absent));
}

#[test]
fn projection_keeps_only_selected_fields() {
    let d = doc3();
    let p = Document::new().with(s("a"), Value::Bool(true));
    let out = apply_projection(&d, &p);
    assert_eq!(out.len(), 1);
    assert!(out.get(&s("a")).unwrap().equals(&Value::Int(1)));
    assert!(out.get(&s("b")).is_none());
    assert!(out.get(&s("_id")).is_none());
}

#[test]
fn projection_flags_and_missing_fields() {
    let d = doc3();
    let p = Document::new()
        .with(s("c"), Value::Int(1))
        .with(s("b"), Value::Int(0))
        .with(s("zz"), Value::Bool(true));
    let out = apply_projection(&d, &p);
    assert_eq!(out.len(), 1);
    assert_eq!(out.key_at(0), "c");
    let all = apply_projection(&d, &Document::new());
    assert_eq!(all.len(), 3);
    assert_eq!(all.key_at(1), "b");
}

#[test]
fn projection_through_the_store() {
    let mut store = MemoryDatabaseService::new();
    add_user(&mut store, "alice", true);
    let p = Document::new().with(s("username"), Value::Bool(true));
    let reduced = store.find_one_projection::<User, User>(&Filter::new(), &p);
    assert!(matches!(reduced, Err(docstore::error::DatabaseError::DocumentNotValid(_))));
    let whole = store
        .find_many_projection::<User, User>(&Filter::new(), &Document::new())
        .unwrap();
    assert_eq!(whole.len(), 1);
    assert_eq!(whole[0].username(), "alice");
}

#[test]
fn update_one_without_match_changes_nothing() {
    let mut store = MemoryDatabaseService::new();
    add_user(&mut store, "alice", true);
    let filter = Filter::new().equal(s("username"), Value::Str(s("nobody")));
    let update = Update::set(Document::new().with(s("first_name"), Value::Str(s("X"))));
    assert!(store.update_one::<User>(&filter, &update, None).is_ok());
    let users = store.find_many::<User>(&Filter::new()).unwrap();
    assert_eq!(users.len(), 1);
    assert_eq!(users[0].first_name(), "Marcel");
}

#[test]
fn update_one_changes_first_match_only() {
    let mut store = MemoryDatabaseService::new();
    add_user(&mut store, "alice", false);
    add_user(&mut store, "bob", false);
    let update = Update::set(Document::new().with(s("admin"), Value::Bool(true)));
    store.update_one::<User>(&Filter::new(), &update, None).unwrap();
    let users = store.find_many::<User>(&Filter::new()).unwrap();
    assert!(users[0].admin());
    assert!(!users[1].admin());
    store.update_many::<User>(&Filter::new(), &update, None).unwrap();
    let users = store.find_many::<User>(&Filter::new()).unwrap();
    assert!(users[0].admin() && users[1].admin());
}

#[test]
fn update_adds_new_fields_and_keeps_others() {
    let mut d = doc3();
    docstore::engine::apply_set(&mut d, &Document::new().with(s("b"), Value::Null).with(s("d"), Value::Int(4)));
    assert_eq!(d.len(), 4);
    assert!(d.get(&s("a")).unwrap().equals(&Value::Int(1)));
    assert!(d.get(&s("b")).unwrap().equals(&Value::Null));
    assert_eq!(d.key_at(3), "d");
}

#[test]
fn delete_many_keeps_survivors_in_order() {
    let mut store = MemoryDatabaseService::new();
    for name in ["u1", "u2", "u3", "u4", "u5"] {
        add_user(&mut store, name, name == "u2" || name == "u4");
    }
    let filter = Filter::new().equal(s("admin"), Value::Bool(true));
    store.delete_many::<User>(&filter, None).unwrap();
    let left: Vec<String> = store
        .find_many::<User>(&Filter::new())
        .unwrap()
        .iter()
        .map(|u| u.username().clone())
        .collect();
    assert_eq!(left, vec![s("u1"), s("u3"), s("u5")]);
}

#[test]
fn delete_one_removes_first_match() {
    let mut store = MemoryDatabaseService::new();
    for name in ["u1", "u2", "u3"] {
        add_user(&mut store, name, false);
    }
    store.delete_one::<User>(&Filter::new(), None).unwrap();
    let left = store.find_many::<User>(&Filter::new()).unwrap();
    assert_eq!(left.len(), 2);
    assert_eq!(left[0].username(), "u2");
    let none = Filter::new().equal(s("username"), Value::Str(s("zz")));
    store.delete_one::<User>(&none, None).unwrap();
    assert_eq!(store.count_documents::<User>(&Filter::new()).unwrap(), 2);
}

#[test]
fn insert_refuses_payload_with_identity() {
    let mut store = MemoryDatabaseService::new();
    let first = store.insert_one::<User>(Document::new().with(s("x"), Value::Int(1)), None).unwrap();
    let payload = Document::new().with(s("_id"), Value::Id(first));
    assert!(matches!(
        store.insert_one::<User>(payload, None),
        Err(docstore::error::DatabaseError::DocumentHasAlreadyAnId)
    ));
    let ids = store
        .insert_many::<User>(vec![Document::new(), Document::new()], None)
        .unwrap();
    assert_eq!(ids.len(), 2);
    assert_ne!(ids[0], ids[1]);
    assert_eq!(store.count_documents::<User>(&Filter::new()).unwrap(), 3);
}

#[test]
fn find_reports_documents_that_do_not_read() {
    let mut store = MemoryDatabaseService::new();
    store.insert_one::<User>(Document::new().with(s("x"), Value::Int(1)), None).unwrap();
    let r = store.find_one::<User>(&Filter::new());
    assert!(matches!(r, Err(docstore::error::DatabaseError::DocumentNotValid(_))));
    assert!(store.find_many::<User>(&Filter::new()).is_err());
}

#[test]
fn aggregate_fails_loudly() {
    let store = MemoryDatabaseService::new();
    assert!(matches!(
        store.aggregate::<User>(vec![]),
        Err(docstore::error::DatabaseError::DatabaseOperationError(_))
    ));
}

#[test]
fn empty_store_finds_nothing() {
    let store = MemoryDatabaseService::new();
    assert!(store.find_one::<User>(&Filter::new()).unwrap().is_none());
    assert_eq!(store.find_many::<User>(&Filter::new()).unwrap().len(), 0);
    assert_eq!(store.count_documents::<User>(&Filter::new()).unwrap(), 0);
    assert_eq!(store.get_db_name(), "database");
}

#[test]
fn store_with_given_identity() {
    let mut store = MemoryDatabaseService::new();
    let name = s("user");
    let id = docstore::value::ObjectId::from_bytes([8; 12]);
    let r = store.store_with_id(&name, Document::new().with(s("x"), Value::Int(1)), id);
    assert_eq!(r.unwrap(), id);
    let again = store.store_with_id(&name, Document::new(), id);
    assert!(matches!(again, Err(docstore::error::DatabaseError::InvalidObjectId)));
    assert_eq!(store.count_documents::<User>(&Filter::new()).unwrap(), 1);
}

#[test]
fn insert_many_stops_at_first_failure() {
    let mut store = MemoryDatabaseService::new();
    let first = store.insert_one::<User>(Document::new(), None).unwrap();
    let batch = vec![
        Document::new().with(s("n"), Value::Int(1)),
        Document::new().with(s("_id"), Value::Id(first)),
        Document::new().with(s("n"), Value::Int(3)),
    ];
    assert!(matches!(
        store.insert_many::<User>(batch, None),
        Err(docstore::error::DatabaseError::DocumentHasAlreadyAnId)
    ));
    assert_eq!(store.count_documents::<User>(&Filter::new()).unwrap(), 2);
    let one = Filter::new().equal(s("n"), Value::Int(1));
    assert_eq!(store.count_documents::<User>(&one).unwrap(), 1);
}
