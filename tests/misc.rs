use docstore::auth::{AuthInfo, JWTAuthClaim};
use docstore::dtos::{User as UserDto, to_hex};
use docstore::enums::{FrontendMode, ObjectSourceType};
use docstore::error::{AuthError, ServiceAppError};
use docstore::frontend::{ApiError, ApiService, AppContext, AppRoute, HttpStatus, LoggedUserInfo};
use docstore::memory::MemoryDatabaseService;
use docstore::model::UserBuilder;
use docstore::value::ObjectId;

#[test]
fn http_status_classes() {
    assert_eq!(HttpStatus::from(100), HttpStatus::Info(100));
    assert_eq!(HttpStatus::from(204), HttpStatus::Success(204));
    assert_eq!(HttpStatus::from(301), HttpStatus::Redirect(301));
    assert_eq!(HttpStatus::from(404), HttpStatus::ClientError(404));
    assert_eq!(HttpStatus::from(503), HttpStatus::ServerError(503));
    assert_eq!(HttpStatus::from(42), HttpStatus::ServerError(42));
}

#[test]
fn api_errors_from_status() {
    assert!(ApiError::from_status(200, "ok".into()).is_none());
    assert!(matches!(ApiError::from_status(400, "m".into()), Some(ApiError::AccessControlError(_))));
    assert!(matches!(ApiError::from_status(401, "m".into()), Some(ApiError::AuthorizationError(_))));
    assert!(matches!(ApiError::from_status(404, "m".into()), Some(ApiError::DoesNotExist(_))));
    assert!(matches!(ApiError::from_status(422, "m".into()), Some(ApiError::JsonRejection(_))));
    assert!(matches!(ApiError::from_status(599, "m".into()), Some(ApiError::InternalServerError(_))));
    match ApiError::from_status(302, "moved".into()) {
        Some(ApiError::GenericRequestError(m)) => assert_eq!(m, "moved"),
        _ => panic!("expected a generic error"),
    }
}

#[test]
fn auth_error_statuses() {
    assert_eq!(AuthError::WrongCredentials.to_status_message(), (401, "Wrong credentials".to_string()));
    assert_eq!(AuthError::InvalidToken.to_status_message(), (400, "Invalid token".to_string()));
    assert_eq!(AuthError::InternalServerError("x".into()).to_status_message().0, 500);
}

#[test]
fn object_source_type_from_text() {
    assert_eq!(ObjectSourceType::try_from("AwsS3").unwrap(), ObjectSourceType::AwsS3);
    assert_eq!(ObjectSourceType::try_from("GCPGS").unwrap(), ObjectSourceType::GcpGS);
    assert_eq!(
        ObjectSourceType::try_from("localFileSystem").unwrap(),
        ObjectSourceType::LocalFileSystem
    );
    assert!(matches!(ObjectSourceType::try_from("ftp"), Err(ServiceAppError::InvalidRequest(_))));
    assert_eq!(ObjectSourceType::AwsS3.to_string(), "AwsS3");
}

#[test]
fn frontend_mode_from_text() {
    assert!(matches!(FrontendMode::try_from("External"), Ok(FrontendMode::External)));
    match FrontendMode::try_from("Integrated:/Srv/Files") {
        Ok(FrontendMode::Integrated(path)) => assert_eq!(path, "/srv/files"),
        _ => panic!("expected an integrated frontend"),
    }
    assert!(matches!(FrontendMode::try_from("integrated"), Err(ServiceAppError::InvalidRequest(_))));
    assert!(matches!(FrontendMode::try_from("other"), Err(ServiceAppError::InvalidRequest(_))));
}

#[test]
fn routes_have_paths() {
    assert_eq!(AppRoute::Login.path(), "/login");
    assert_eq!(AppRoute::Home.path(), "/");
    assert_eq!(AppRoute::NotFound.path(), "/not-found");
}

#[test]
fn context_and_api_service() {
    let info = LoggedUserInfo { token: "t".into(), user_id: "u".into(), username: "n".into(), admin: None };
    let ctx = AppContext::new(Some(info));
    assert_eq!(ctx.user_info.unwrap().username, "n");
    let api = ApiService::new("http://x".into(), true, None);
    assert_eq!(api.get_api_url(), "http://x");
    assert!(api.get_mock());
}

#[test]
fn identity_in_hex() {
    let id = ObjectId::from_bytes([0, 1, 2, 10, 15, 16, 171, 255, 0, 0, 0, 9]);
    assert_eq!(to_hex(&id), "0001020a0f10abff00000009");
}

#[test]
fn user_dto_from_model() {
    let mut store = MemoryDatabaseService::new();
    let user = UserBuilder::new()
        .first_name("A".into())
        .last_name("B".into())
        .username("ab".into())
        .password_hash("h".into())
        .admin(true)
        .publisher(false)
        .build(&mut store, None)
        .unwrap();
    let dto = UserDto::from_model(&user);
    assert_eq!(dto.user_id.len(), 24);
    assert_eq!(dto.username, "ab");
    assert!(dto.admin);
}

#[test]
fn claim_carries_user() {
    let id = ObjectId::from_bytes([4; 12]);
    let claim = JWTAuthClaim::new(3600, id, "marcel".into());
    assert_eq!(*claim.user_id(), id);
    assert_eq!(claim.expiration, 3600);
    assert_eq!(claim.username, "marcel");
}

#[test]
fn blog_post_dto_from_model() {
    let mut store = MemoryDatabaseService::new();
    let post = docstore::model::BlogPostBuilder::new()
        .title("t".into())
        .content("c".into())
        .creation_date(9)
        .user_id(ObjectId::from_bytes([255; 12]))
        .username("u".into())
        .build(&mut store, None)
        .unwrap();
    let dto = docstore::dtos::BlogPost::from_model(&post);
    assert_eq!(dto.creator_id, "ffffffffffffffffffffffff");
    assert_eq!(dto.creation_date, 9);
    assert_eq!(dto.title, "t");
}
