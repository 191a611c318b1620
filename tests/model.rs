use docstore::transaction::{TransactionOp, finishing_op, needs_transaction};
use docstore::database::DatabaseServiceTrait;
use docstore::document::DatabaseDocumentTrait;
use docstore::error::DatabaseError;
use docstore::memory::MemoryDatabaseService;
use docstore::model::{BlogPost, BlogPostBuilder, User, UserBuilder};
use docstore::query::{Filter, Update};
use docstore::smart_document::SmartDocumentReference;
use docstore::transaction::{
    DatabaseTransactionTrait, MemoryDatabaseTransaction, TransactionState,
};
use docstore::value::{Document, ObjectId};

fn s(text: &str) -> String {
    text.to_string()
}

fn full_user() -> UserBuilder {
    UserBuilder::new()
        .first_name(s("Marcel"))
        .last_name(s("Proust"))
        .username(s("marcel"))
        .password_hash(s("hash"))
        .admin(true)
        .publisher(false)
}

#[test]
fn builder_result_round_trips_through_find_one() {
    let mut store = MemoryDatabaseService::new();
    let built = full_user().build(&mut store, None).unwrap();
    let found = store
        .find_one::<User>(&Filter::by_id(*built.get_id()))
        .unwrap()
        .unwrap();
    assert_eq!(found.get_id(), built.get_id());
    assert_eq!(found.first_name(), "Marcel");
    assert_eq!(found.last_name(), "Proust");
    assert_eq!(found.username(), "marcel");
    assert_eq!(found.password_hash(), "hash");
    assert!(found.admin());
    assert!(!found.publisher());
}

#[test]
fn blog_post_round_trips_through_find_one() {
    let mut store = MemoryDatabaseService::new();
    let author = ObjectId::from_bytes([7; 12]);
    let post = BlogPostBuilder::new()
        .title(s("t"))
        .content(s("c"))
        .creation_date(1_700_000_000_000)
        .user_id(author)
        .username(s("marcel"))
        .build(&mut store, None)
        .unwrap();
    let found = store
        .find_one::<BlogPost>(&Filter::by_id(*post.get_id()))
        .unwrap()
        .unwrap();
    assert_eq!(found.title(), "t");
    assert_eq!(found.content(), "c");
    assert_eq!(found.creation_date(), 1_700_000_000_000);
    assert_eq!(*found.user_id(), author);
    assert_eq!(found.username(), "marcel");
}

#[test]
fn builder_missing_field_is_refused_without_insertion() {
    let mut store = MemoryDatabaseService::new();
    let r = UserBuilder::new()
        .first_name(s("Marcel"))
        .username(s("marcel"))
        .password_hash(s("hash"))
        .admin(true)
        .publisher(false)
        .build(&mut store, None);
    match r {
        Err(DatabaseError::DocumentNotValid(field)) => assert_eq!(field, "last_name"),
        other => panic!("unexpected {:?}", other),
    }
    assert_eq!(store.count_documents::<User>(&Filter::new()).unwrap(), 0);
}

#[test]
fn builder_reports_first_missing_field_only() {
    let mut store = MemoryDatabaseService::new();
    let r = BlogPostBuilder::new().content(s("c")).build(&mut store, None);
    match r {
        Err(DatabaseError::DocumentNotValid(field)) => assert_eq!(field, "title"),
        other => panic!("unexpected {:?}", other),
    }
    assert_eq!(store.count_documents::<BlogPost>(&Filter::new()).unwrap(), 0);
}

#[test]
fn lazy_reference_resolves_and_memoizes() {
    let mut store = MemoryDatabaseService::new();
    let built = full_user().build(&mut store, None).unwrap();
    let mut reference: SmartDocumentReference<User> = SmartDocumentReference::Id(*built.get_id());
    assert!(!reference.is_resolved());
    assert_eq!(reference.as_document_ref(&store).unwrap().username(), "marcel");
    assert!(reference.is_resolved());
    let update = Update::set(Document::new().with(s("username"), docstore::value::Value::Str(s("other"))));
    store.update_one::<User>(&Filter::new(), &update, None).unwrap();
    assert_eq!(reference.as_document_ref(&store).unwrap().username(), "marcel");
    assert_eq!(reference.as_ref_id(), built.get_id());
    assert_eq!(reference.to_document(&store).unwrap().username(), "marcel");
}

#[test]
fn lazy_reference_to_missing_document() {
    let store = MemoryDatabaseService::new();
    let id = ObjectId::from_bytes([3; 12]);
    let mut reference: SmartDocumentReference<User> = SmartDocumentReference::Id(id);
    match reference.as_document_ref(&store) {
        Err(DatabaseError::DocumentDoesNotExist(missing)) => assert_eq!(missing, id),
        _ => panic!("expected a missing document"),
    }
    assert!(!reference.is_resolved());
}

#[test]
fn transaction_finishes_once() {
    let mut t = MemoryDatabaseTransaction::new();
    assert_eq!(t.current_state(), TransactionState::Active);
    assert!(t.abort_transaction().is_ok());
    assert_eq!(t.current_state(), TransactionState::Aborted);
    assert!(matches!(t.commit_transaction(), Err(DatabaseError::TransactionError(_))));
    assert!(matches!(t.abort_transaction(), Err(DatabaseError::TransactionError(_))));
    assert_eq!(t.current_state(), TransactionState::Aborted);

    let mut u = MemoryDatabaseTransaction::new();
    assert!(u.commit_transaction().is_ok());
    assert!(matches!(u.abort_transaction(), Err(DatabaseError::TransactionError(_))));
    assert_eq!(u.current_state(), TransactionState::Committed);
}

#[test]
fn store_hands_out_active_transactions() {
    let store = MemoryDatabaseService::new();
    let t = store.new_transaction().unwrap();
    assert_eq!(t.current_state(), TransactionState::Active);
}

#[test]
fn request_scoping_decisions() {
    assert!(needs_transaction("POST"));
    assert!(needs_transaction("DELETE"));
    assert!(!needs_transaction("GET"));
    assert!(!needs_transaction("post"));
    assert_eq!(finishing_op(200), TransactionOp::Commit);
    assert_eq!(finishing_op(299), TransactionOp::Commit);
    assert_eq!(finishing_op(302), TransactionOp::Abort);
    assert_eq!(finishing_op(500), TransactionOp::Abort);
}

#[test]
fn lookup_outcomes() {
    let id = ObjectId::from_bytes([6; 12]);
    let miss = SmartDocumentReference::<User>::found_or_missing(Ok(None), id);
    assert!(matches!(miss, Err(DatabaseError::DocumentDoesNotExist(m)) if m == id));
    let failed = SmartDocumentReference::<User>::found_or_missing(
        Err(DatabaseError::TransactionError("busy".into())),
        id,
    );
    match failed {
        Err(DatabaseError::TransactionError(m)) => assert_eq!(m, "busy"),
        _ => panic!("expected the lookup's error"),
    }
}

#[test]
fn scoped_request_statuses() {
    use_scoped();
}

fn use_scoped() {
    assert_eq!(docstore::transaction::scoped_status(true, 201, true), 201);
    assert_eq!(docstore::transaction::scoped_status(false, 201, true), 500);
    assert_eq!(docstore::transaction::scoped_status(true, 404, false), 500);
}
