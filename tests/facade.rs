use docstore::auth::JWTAuthClaim;
use docstore::document::DatabaseDocumentTrait;
use docstore::error::AppError;
use docstore::facade::{AdminFacade, UserFacade, access_error};
use docstore::error::ServiceAppError;
use docstore::memory::MemoryDatabaseService;
use docstore::model::{User, UserBuilder};
use docstore::value::ObjectId;

fn user(store: &mut MemoryDatabaseService, name: &str, admin: bool, publisher: bool) -> User {
    UserBuilder::new()
        .first_name("F".into())
        .last_name("L".into())
        .username(name.into())
        .password_hash("h".into())
        .admin(admin)
        .publisher(publisher)
        .build(store, None)
        .unwrap()
}

fn claim(u: &User) -> JWTAuthClaim {
    JWTAuthClaim::new(0, *u.get_id(), u.username().clone())
}

#[test]
fn publisher_publishes_and_lists() {
    let mut store = MemoryDatabaseService::new();
    let author = user(&mut store, "writer", false, true);
    let mut facade = UserFacade::new(&claim(&author), &store).unwrap();
    let info = facade.get_info();
    assert_eq!(info.username, "writer");
    assert!(info.token.is_none());
    assert_eq!(info.user_id.len(), 24);
    let id = facade.publish_post(&mut store, None, "t".into(), "c".into(), 1).unwrap();
    assert_eq!(id.len(), 24);
    let mine = facade.get_posts(&store, Some(*author.get_id())).unwrap();
    assert_eq!(mine.len(), 1);
    assert_eq!(mine[0].title(), "t");
}

#[test]
fn non_publisher_is_refused() {
    let mut store = MemoryDatabaseService::new();
    let reader = user(&mut store, "reader", false, false);
    let mut facade = UserFacade::new(&claim(&reader), &store).unwrap();
    let r = facade.publish_post(&mut store, None, "t".into(), "c".into(), 1);
    assert!(matches!(r, Err(AppError::AccessControlError(_))));
    assert_eq!(facade.get_posts(&store, None).unwrap().len(), 0);
}

#[test]
fn unknown_caller_is_refused() {
    let store = MemoryDatabaseService::new();
    let ghost = JWTAuthClaim::new(0, ObjectId::from_bytes([5; 12]), "ghost".into());
    assert!(matches!(UserFacade::new(&ghost, &store), Err(AppError::AccessControlError(_))));
    assert!(matches!(AdminFacade::new(&ghost, &store), Err(AppError::AccessControlError(_))));
}

#[test]
fn only_admins_list_users() {
    let mut store = MemoryDatabaseService::new();
    let admin = user(&mut store, "root", true, false);
    let plain = user(&mut store, "joe", false, false);
    let facade = AdminFacade::new(&claim(&admin), &store).unwrap();
    let users = facade.get_users(&store).unwrap();
    assert_eq!(users.len(), 2);
    assert_eq!(users[1].username(), "joe");
    assert!(matches!(AdminFacade::new(&claim(&plain), &store), Err(AppError::AccessControlError(_))));
}

#[test]
fn permission_errors_map_to_client_errors() {
    assert!(matches!(
        access_error(ServiceAppError::AccessControlError("no".into())),
        AppError::AccessControlError(_)
    ));
    assert!(matches!(
        access_error(ServiceAppError::DoesNotExist("x".into())),
        AppError::InternalServerError { .. }
    ));
}
