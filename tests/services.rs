use docstore::database::DatabaseServiceTrait;
use docstore::document::DatabaseDocumentTrait;
use docstore::error::{AuthError, ServiceAppError};
use docstore::memory::MemoryDatabaseService;
use docstore::model::{BlogPost, User, UserBuilder};
use docstore::query::Filter;
use docstore::service::{AccessControl, BlogService, UserService, hash_password};
use docstore::smart_document::SmartDocumentReference;
use docstore::value::ObjectId;

fn create_user(store: &mut MemoryDatabaseService, username: &str, password: &str) -> User {
    let password_hash = hash_password(password).unwrap();
    UserBuilder::new()
        .first_name("Marcel".into())
        .last_name("Proust".into())
        .admin(false)
        .username(username.into())
        .publisher(false)
        .password_hash(password_hash)
        .build(store, None)
        .unwrap()
}

#[test]
fn test_get_posts() {
    let mut database_service = MemoryDatabaseService::new();
    let first_user = ObjectId::from_bytes([1; 12]);
    let second_user = ObjectId::from_bytes([2; 12]);
    let blog_service: BlogService<MemoryDatabaseService> = BlogService::new(None);
    for i in 0..5 {
        let user_id = if i < 3 { first_user } else { second_user };
        blog_service
            .publish_post(
                &mut database_service,
                format!("Blog title {i}"),
                format!("Blog content {i}"),
                user_id,
                "username".to_string(),
                0,
            )
            .unwrap();
    }
    let first_user_posts = blog_service.get_posts(&database_service, Some(first_user)).unwrap();
    assert_eq!(first_user_posts.len(), 3);
    let second_user_posts = blog_service.get_posts(&database_service, Some(second_user)).unwrap();
    assert_eq!(second_user_posts.len(), 2);
    let all_user_posts = blog_service.get_posts(&database_service, None).unwrap();
    assert_eq!(all_user_posts.len(), 5);
}

#[test]
fn test_publish_post() {
    let mut database_service = MemoryDatabaseService::new();
    let blog_service: BlogService<MemoryDatabaseService> = BlogService::new(None);
    let mut titles = vec![];
    let first_user = ObjectId::from_bytes([1; 12]);
    let second_user = ObjectId::from_bytes([2; 12]);
    for i in 0..5 {
        let user_id = if i < 3 { first_user } else { second_user };
        let title = format!("title {i}");
        blog_service
            .publish_post(&mut database_service, title.clone(), title.clone(), user_id, "username".to_string(), 0)
            .unwrap();
        titles.push(title);
    }
    assert_eq!(database_service.find_many::<BlogPost>(&Filter::new()).unwrap().len(), 5);
}

#[test]
fn test_login() {
    let username = "username";
    let password = "password";
    let mut database_service = MemoryDatabaseService::new();
    create_user(&mut database_service, "first_user", "first_user");
    let user = create_user(&mut database_service, username, password);
    let logged_user = UserService::login(&database_service, username, password).unwrap();
    assert_eq!(logged_user.username(), &username);
    assert_eq!(logged_user.get_id(), user.get_id());
}

#[test]
fn test_get() {
    let username = "username";
    let password = "password";
    let mut database_service = MemoryDatabaseService::new();
    create_user(&mut database_service, "first_user", "first_user");
    let user = create_user(&mut database_service, username, password);
    let mut user_service = UserService::new(SmartDocumentReference::Document(user.duplicate()));
    let read_user = user_service.get(&database_service).unwrap();
    assert_eq!(read_user.username(), &username);
    assert_eq!(read_user.get_id(), user.get_id());
}

#[test]
fn login_with_wrong_password_or_unknown_user() {
    let mut database_service = MemoryDatabaseService::new();
    create_user(&mut database_service, "alice", "secret");
    assert!(matches!(
        UserService::login(&database_service, "alice", "wrong"),
        Err(ServiceAppError::AuthorizationError(AuthError::WrongCredentials))
    ));
    assert!(matches!(
        UserService::login(&database_service, "bob", "secret"),
        Err(ServiceAppError::AuthorizationError(AuthError::WrongCredentials))
    ));
}

#[test]
fn password_hash_differs_from_password() {
    let h = hash_password("secret").unwrap();
    assert_ne!(h, "secret");
    assert!(h.starts_with("$2"));
}

#[test]
fn credentials_check_outcomes() {
    let mut database_service = MemoryDatabaseService::new();
    let user = create_user(&mut database_service, "alice", "secret");
    assert!(UserService::check_credentials(user.duplicate(), Ok(true)).is_ok());
    assert!(matches!(
        UserService::check_credentials(user.duplicate(), Ok(false)),
        Err(ServiceAppError::AuthorizationError(AuthError::WrongCredentials))
    ));
    assert!(matches!(
        UserService::check_credentials(user, Err("bad hash".to_string())),
        Err(ServiceAppError::InternalServerError(_))
    ));
}

#[test]
fn access_control_by_role() {
    let mut store = MemoryDatabaseService::new();
    let admin = UserBuilder::new()
        .first_name("A".into())
        .last_name("B".into())
        .username("admin".into())
        .password_hash("h".into())
        .admin(true)
        .publisher(false)
        .build(&mut store, None)
        .unwrap();
    let reference = SmartDocumentReference::Id(*admin.get_id());
    let mut control = AccessControl::new(reference, &store).unwrap();
    assert!(control.is_platform_admin_ref(&store).is_ok());
    assert!(matches!(
        control.is_publisher_ref(&store),
        Err(ServiceAppError::AccessControlError(_))
    ));
    let control = control.is_platform_admin(&store).unwrap();
    assert!(control.is_publisher(&store).is_err());
}

#[test]
fn access_control_for_unknown_user() {
    let store = MemoryDatabaseService::new();
    let reference: SmartDocumentReference<User> =
        SmartDocumentReference::Id(ObjectId::from_bytes([9; 12]));
    assert!(matches!(
        AccessControl::new(reference, &store),
        Err(ServiceAppError::AccessControlError(_))
    ));
}

#[test]
fn publish_post_in_a_transaction() {
    let mut store = MemoryDatabaseService::new();
    let tx = store.new_transaction().unwrap();
    let blog_service: BlogService<MemoryDatabaseService> = BlogService::new(Some(tx));
    let post = blog_service
        .publish_post(&mut store, "t".into(), "c".into(), ObjectId::from_bytes([1; 12]), "u".into(), 5)
        .unwrap();
    assert_eq!(post.title(), "t");
    assert_eq!(post.creation_date(), 5);
}

#[test]
fn unknown_user_message_names_identity() {
    let err = docstore::service::access_load_error(docstore::error::DatabaseError::DocumentDoesNotExist(
        ObjectId::from_bytes([0xab; 12]),
    ));
    match err {
        ServiceAppError::AccessControlError(m) => {
            assert_eq!(m, "User with id abababababababababababab is not valid")
        }
        _ => panic!("expected an access control error"),
    }
    assert!(matches!(
        docstore::service::access_load_error(docstore::error::DatabaseError::InvalidObjectId),
        ServiceAppError::DatabaseError(docstore::error::DatabaseError::InvalidObjectId)
    ));
}

#[test]
fn publish_errors_are_mapped() {
    match docstore::service::publish_error(docstore::error::DatabaseError::DocumentNotValid("title".into())) {
        ServiceAppError::InvalidRequest(m) => assert_eq!(m, "title"),
        _ => panic!("expected an invalid request"),
    }
    assert!(matches!(
        docstore::service::publish_error(docstore::error::DatabaseError::ClientNotConnected),
        ServiceAppError::DatabaseError(docstore::error::DatabaseError::ClientNotConnected)
    ));
}
